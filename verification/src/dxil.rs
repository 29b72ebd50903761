//! Compiling SPIR-V to DXIL: what is decided before and after the compiler
//! runs.

pub mod runtime;

use crate::config::{check_register_spaces, larger, BufferBinding, FlipConfig};
use crate::enums::{ShaderModel, ValidatorVersion};
use crate::error::SpirvToDxilError;
use crate::object::DxilObject;
use crate::signing::{sign_in_place, signed};
use vstd::prelude::*;

verus! {

/// Runtime configuration options for a compilation to DXIL.
pub struct DxilRuntimeConfig {
    pub runtime_data_cbv: BufferBinding,
    pub push_constant_cbv: BufferBinding,
    pub zero_based_vertex_instance_id: bool,
    pub zero_based_compute_workgroup_id: bool,
    pub yz_flip: FlipConfig,
    pub declared_read_only_images_as_srvs: bool,
    pub inferred_read_only_images_as_srvs: bool,
    pub force_sample_rate_shading: bool,
    pub lower_view_index: bool,
    pub lower_view_index_to_rt_layer: bool,
    pub shader_model_max: ShaderModel,
}

impl Default for DxilRuntimeConfig {
    /// Both bindings zero; vertex and instance ids zero-based; shader model
    /// 6.0; everything else off or zero.
    fn default() -> (config: DxilRuntimeConfig)
        ensures
            config.runtime_data_cbv.register_space == 0,
            config.runtime_data_cbv.base_shader_register == 0,
            config.push_constant_cbv.register_space == 0,
            config.push_constant_cbv.base_shader_register == 0,
            config.zero_based_vertex_instance_id,
            !config.zero_based_compute_workgroup_id,
            config.yz_flip.mode.bits == 0,
            config.yz_flip.y_mask == 0,
            config.yz_flip.z_mask == 0,
            !config.declared_read_only_images_as_srvs,
            !config.inferred_read_only_images_as_srvs,
            !config.force_sample_rate_shading,
            !config.lower_view_index,
            !config.lower_view_index_to_rt_layer,
            config.shader_model_max == ShaderModel::ShaderModel6_0,
    {
        DxilRuntimeConfig {
            runtime_data_cbv: BufferBinding::default(),
            push_constant_cbv: BufferBinding::default(),
            zero_based_vertex_instance_id: true,
            zero_based_compute_workgroup_id: false,
            yz_flip: FlipConfig::default(),
            declared_read_only_images_as_srvs: false,
            inferred_read_only_images_as_srvs: false,
            force_sample_rate_shading: false,
            lower_view_index: false,
            lower_view_index_to_rt_layer: false,
            shader_model_max: ShaderModel::ShaderModel6_0,
        }
    }
}

/// Whether a configuration may be handed to the compiler: the register
/// spaces of both constant blocks are within the limit.
pub fn check_config(config: &DxilRuntimeConfig) -> (checked: Result<(), SpirvToDxilError>)
    ensures
        config.push_constant_cbv.register_space <= 31 && config.runtime_data_cbv.register_space
            <= 31 ==> checked is Ok,
        config.push_constant_cbv.register_space > 31 || config.runtime_data_cbv.register_space
            > 31 ==> checked == Err::<(), SpirvToDxilError>(
            SpirvToDxilError::RegisterSpaceOverflow(
                larger(
                    config.push_constant_cbv.register_space,
                    config.runtime_data_cbv.register_space,
                ),
            ),
        ),
{
    check_register_spaces(
        config.push_constant_cbv.register_space,
        config.runtime_data_cbv.register_space,
    )
}

/// The bytes of the artifact that a successful compilation gives: where no
/// validator is asked for, the container with its digest written in; else
/// the container as the compiler left it.
pub open spec fn artifact_bytes(binary: Seq<u8>, validator_version_max: ValidatorVersion) -> Seq<
    u8,
> {
    if validator_version_max == ValidatorVersion::NoValidation {
        signed(binary)
    } else {
        binary
    }
}

/// Decides what a compilation returns once the compiler has run.
///
/// `succeeded` is the compiler's verdict, `binary` the container it wrote,
/// `requires_runtime_data` what it reported of the shader, and `log` what
/// it logged. A failed compilation gives the log as the error. A
/// successful one gives the artifact, signed where no validator is asked
/// for.
pub fn complete(
    succeeded: bool,
    binary: Vec<u8>,
    requires_runtime_data: bool,
    log: String,
    validator_version_max: ValidatorVersion,
) -> (outcome: Result<DxilObject, SpirvToDxilError>)
    requires
        succeeded && validator_version_max == ValidatorVersion::NoValidation ==> binary@.len()
            >= 20,
    ensures
        !succeeded ==> outcome == Err::<DxilObject, SpirvToDxilError>(
            SpirvToDxilError::CompilerError(log),
        ),
        succeeded ==> (outcome matches Ok(object) && object.bytes() == artifact_bytes(
            binary@,
            validator_version_max,
        ) && object.spec_requires_runtime_data() == requires_runtime_data),
{
    if succeeded {
        let mut binary = binary;
        if validator_version_max == ValidatorVersion::NoValidation {
            sign_in_place(binary.as_mut_slice());
        }
        Ok(DxilObject::new(binary, requires_runtime_data))
    } else {
        Err(SpirvToDxilError::CompilerError(log))
    }
}

} // verus!
