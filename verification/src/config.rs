//! Runtime configuration of a compilation, and the limit on register spaces.

use crate::error::SpirvToDxilError;
use vstd::prelude::*;

verus! {

/// The highest register space that a constant buffer may ask for.
pub const MAX_REGISTER_SPACE: u32 = 31;

/// The binding of a runtime buffer that a shader needs.
#[derive(Debug, Copy, Clone)]
pub struct BufferBinding {
    pub register_space: u32,
    pub base_shader_register: u32,
}

impl Default for BufferBinding {
    fn default() -> (binding: BufferBinding)
        ensures
            binding.register_space == 0,
            binding.base_shader_register == 0,
    {
        BufferBinding { register_space: 0, base_shader_register: 0 }
    }
}

/// Configuration options for constant buffer views.
pub struct ConstantBufferConfig {
    pub register_space: u32,
    pub base_shader_register: u32,
}

impl Default for ConstantBufferConfig {
    fn default() -> (config: ConstantBufferConfig)
        ensures
            config.register_space == 0,
            config.base_shader_register == 0,
    {
        ConstantBufferConfig { register_space: 0, base_shader_register: 0 }
    }
}

/// The YZ flip mode, as the set of flag bits that the compiler reads.
#[derive(Debug, Copy, Clone)]
pub struct FlipMode {
    pub bits: u32,
}

impl Default for FlipMode {
    /// No flag set: no flip.
    fn default() -> (mode: FlipMode)
        ensures
            mode.bits == 0,
    {
        FlipMode { bits: 0 }
    }
}

impl FlipMode {
    /// The flag bits.
    pub fn bits(&self) -> (bits: u32)
        ensures
            bits == self.bits,
    {
        self.bits
    }
}

/// Configuration options for the YZ flip.
pub struct FlipConfig {
    pub mode: FlipMode,
    pub y_mask: u16,
    pub z_mask: u16,
}

impl Default for FlipConfig {
    fn default() -> (config: FlipConfig)
        ensures
            config.mode.bits == 0,
            config.y_mask == 0,
            config.z_mask == 0,
    {
        FlipConfig { mode: FlipMode::default(), y_mask: 0, z_mask: 0 }
    }
}

/// Runtime configuration options for the compilation.
pub struct RuntimeConfig {
    pub runtime_data_cbv: ConstantBufferConfig,
    pub push_constant_cbv: ConstantBufferConfig,
    /// Set if vertex and instance ids have already been converted to
    /// zero-based. Otherwise runtime data is needed to lower them.
    pub zero_based_vertex_instance_id: bool,
    /// Set if the workgroup base is known to be zero.
    pub zero_based_compute_workgroup_id: bool,
    pub yz_flip: FlipConfig,
    /// The caller supports read-only images turned into SRV accesses.
    pub read_only_images_as_srvs: bool,
    /// Force sample rate shading on a fragment shader.
    pub force_sample_rate_shading: bool,
    /// The view index needs to be lowered to a UBO lookup.
    pub lower_view_index: bool,
    /// The view index also needs to be forwarded to the RT layer output.
    pub lower_view_index_to_rt_layer: bool,
}

impl Default for RuntimeConfig {
    /// Runtime data in register space 31, register 0; vertex and instance
    /// ids zero-based; everything else off or zero.
    fn default() -> (config: RuntimeConfig)
        ensures
            config.runtime_data_cbv.register_space == 31,
            config.runtime_data_cbv.base_shader_register == 0,
            config.push_constant_cbv.register_space == 0,
            config.push_constant_cbv.base_shader_register == 0,
            config.zero_based_vertex_instance_id,
            !config.zero_based_compute_workgroup_id,
            config.yz_flip.mode.bits == 0,
            config.yz_flip.y_mask == 0,
            config.yz_flip.z_mask == 0,
            !config.read_only_images_as_srvs,
            !config.force_sample_rate_shading,
            !config.lower_view_index,
            !config.lower_view_index_to_rt_layer,
    {
        RuntimeConfig {
            runtime_data_cbv: ConstantBufferConfig { register_space: 31, base_shader_register: 0 },
            push_constant_cbv: ConstantBufferConfig::default(),
            zero_based_vertex_instance_id: true,
            zero_based_compute_workgroup_id: false,
            yz_flip: FlipConfig::default(),
            read_only_images_as_srvs: false,
            force_sample_rate_shading: false,
            lower_view_index: false,
            lower_view_index_to_rt_layer: false,
        }
    }
}

/// The larger of two register spaces.
pub open spec fn larger(a: u32, b: u32) -> u32 {
    if a >= b {
        a
    } else {
        b
    }
}

/// Holds the register spaces of the push constant block and of the runtime
/// data block to the limit of 31. Where either is beyond it, the error
/// carries the larger of the two.
pub fn check_register_spaces(push_constant: u32, runtime_data: u32) -> (checked: Result<
    (),
    SpirvToDxilError,
>)
    ensures
        push_constant <= 31 && runtime_data <= 31 ==> checked is Ok,
        push_constant > 31 || runtime_data > 31 ==> checked == Err::<(), SpirvToDxilError>(
            SpirvToDxilError::RegisterSpaceOverflow(larger(push_constant, runtime_data)),
        ),
{
    if push_constant > MAX_REGISTER_SPACE || runtime_data > MAX_REGISTER_SPACE {
        let space = if push_constant >= runtime_data {
            push_constant
        } else {
            runtime_data
        };
        return Err(SpirvToDxilError::RegisterSpaceOverflow(space));
    }
    Ok(())
}

} // verus!
