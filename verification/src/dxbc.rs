//! Compiling SPIR-V to DXBC: what is decided before and after the compiler
//! runs.

pub mod runtime;

use crate::config::{check_register_spaces, larger, BufferBinding};
use crate::enums::ShaderModel;
use crate::error::SpirvToDxilError;
use crate::signing::{sign_in_place, signed};
use vstd::prelude::*;

verus! {

/// Runtime configuration options for a compilation to DXBC.
pub struct DxbcRuntimeConfig {
    pub runtime_data_cbv: BufferBinding,
    pub push_constant_cbv: BufferBinding,
    pub zero_based_vertex_instance_id: bool,
    pub shader_model_max: ShaderModel,
}

impl Default for DxbcRuntimeConfig {
    /// Both bindings zero; vertex and instance ids zero-based; shader model
    /// 5.0.
    fn default() -> (config: DxbcRuntimeConfig)
        ensures
            config.runtime_data_cbv.register_space == 0,
            config.runtime_data_cbv.base_shader_register == 0,
            config.push_constant_cbv.register_space == 0,
            config.push_constant_cbv.base_shader_register == 0,
            config.zero_based_vertex_instance_id,
            config.shader_model_max == ShaderModel::ShaderModel5_0,
    {
        DxbcRuntimeConfig {
            runtime_data_cbv: BufferBinding::default(),
            push_constant_cbv: BufferBinding::default(),
            zero_based_vertex_instance_id: true,
            shader_model_max: ShaderModel::ShaderModel5_0,
        }
    }
}

/// Whether the register spaces of both constant blocks are within the
/// limit.
pub open spec fn spaces_fit(config: &DxbcRuntimeConfig) -> bool {
    config.push_constant_cbv.register_space <= 31 && config.runtime_data_cbv.register_space <= 31
}

/// Whether a configuration may be handed to the compiler. The register
/// spaces are checked first, then the shader model, which may not be later
/// than 5.1.
pub fn check_config(config: &DxbcRuntimeConfig) -> (checked: Result<(), SpirvToDxilError>)
    ensures
        spaces_fit(config) && !config.shader_model_max.spec_is_after_5_1() ==> checked is Ok,
        !spaces_fit(config) ==> checked == Err::<(), SpirvToDxilError>(
            SpirvToDxilError::RegisterSpaceOverflow(
                larger(
                    config.push_constant_cbv.register_space,
                    config.runtime_data_cbv.register_space,
                ),
            ),
        ),
        spaces_fit(config) && config.shader_model_max.spec_is_after_5_1() ==> checked == Err::<
            (),
            SpirvToDxilError,
        >(SpirvToDxilError::InvalidShaderModel(config.shader_model_max)),
{
    match check_register_spaces(
        config.push_constant_cbv.register_space,
        config.runtime_data_cbv.register_space,
    ) {
        Ok(()) => {},
        Err(e) => {
            return Err(e);
        },
    }
    if config.shader_model_max.is_after_5_1() {
        return Err(SpirvToDxilError::InvalidShaderModel(config.shader_model_max));
    }
    Ok(())
}

/// Decides what a compilation returns once the compiler has run.
///
/// `succeeded` is the compiler's verdict, `binary` the container it wrote
/// and `log` what it logged. A failed compilation gives the log as the
/// error; a successful one the container with its digest written in.
pub fn complete(succeeded: bool, binary: Vec<u8>, log: String) -> (outcome: Result<
    Vec<u8>,
    SpirvToDxilError,
>)
    requires
        succeeded ==> binary@.len() >= 20,
    ensures
        !succeeded ==> outcome == Err::<Vec<u8>, SpirvToDxilError>(
            SpirvToDxilError::CompilerError(log),
        ),
        succeeded ==> (outcome matches Ok(container) && container@ == signed(binary@)),
{
    if succeeded {
        let mut binary = binary;
        sign_in_place(binary.as_mut_slice());
        Ok(binary)
    } else {
        Err(SpirvToDxilError::CompilerError(log))
    }
}

} // verus!
