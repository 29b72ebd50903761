//! Runtime data of DXIL shaders.

use crate::runtime::{RuntimeDataBuilder, Vec3};
use vstd::prelude::*;
use vstd::std_specs::convert::FromSpecImpl;

verus! {

/// Runtime data builder for compute shaders.
#[derive(Debug, Clone)]
pub struct ComputeRuntimeDataBuilder {
    pub group_count: Vec3<u32>,
    pub base_group: Vec3<u32>,
}

/// Runtime data of a compute shader, field by field as the shader reads it.
#[derive(Debug, Copy, Clone)]
pub struct ComputeRuntimeData {
    pub group_count_x: u32,
    pub group_count_y: u32,
    pub group_count_z: u32,
    pub padding0: u32,
    pub base_group_x: u32,
    pub base_group_y: u32,
    pub base_group_z: u32,
}

/// The data that a builder stands for: its two vectors laid out one after
/// the other, with a zero between them.
pub open spec fn built(builder: ComputeRuntimeDataBuilder) -> ComputeRuntimeData {
    ComputeRuntimeData {
        group_count_x: builder.group_count.x,
        group_count_y: builder.group_count.y,
        group_count_z: builder.group_count.z,
        padding0: 0,
        base_group_x: builder.base_group.x,
        base_group_y: builder.base_group.y,
        base_group_z: builder.base_group.z,
    }
}

impl RuntimeDataBuilder<ComputeRuntimeData> for ComputeRuntimeDataBuilder {
    fn build(self) -> (data: ComputeRuntimeData)
        ensures
            data == built(self),
    {
        ComputeRuntimeData {
            group_count_x: self.group_count.x,
            group_count_y: self.group_count.y,
            group_count_z: self.group_count.z,
            padding0: 0,
            base_group_x: self.base_group.x,
            base_group_y: self.base_group.y,
            base_group_z: self.base_group.z,
        }
    }
}

impl From<ComputeRuntimeDataBuilder> for ComputeRuntimeData {
    fn from(value: ComputeRuntimeDataBuilder) -> (data: ComputeRuntimeData) {
        value.build()
    }
}

impl FromSpecImpl<ComputeRuntimeDataBuilder> for ComputeRuntimeData {
    open spec fn obeys_from_spec() -> bool {
        true
    }

    open spec fn from_spec(value: ComputeRuntimeDataBuilder) -> ComputeRuntimeData {
        built(value)
    }
}

} // verus!
