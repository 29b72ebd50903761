//! Runtime data of DXBC shaders.

use crate::runtime::{RuntimeDataBuilder, Vec3};
use vstd::prelude::*;
use vstd::std_specs::convert::FromSpecImpl;

verus! {

/// Runtime data builder for compute shaders.
#[derive(Debug, Clone)]
pub struct ComputeRuntimeDataBuilder {
    pub group_count: Vec3<u32>,
}

/// Runtime data of a compute shader, field by field as the shader reads it.
#[derive(Debug, Copy, Clone)]
pub struct ComputeRuntimeData {
    pub group_count_x: u32,
    pub group_count_y: u32,
    pub group_count_z: u32,
}

/// The compute data that a builder stands for.
pub open spec fn built_compute(builder: ComputeRuntimeDataBuilder) -> ComputeRuntimeData {
    ComputeRuntimeData {
        group_count_x: builder.group_count.x,
        group_count_y: builder.group_count.y,
        group_count_z: builder.group_count.z,
    }
}

impl RuntimeDataBuilder<ComputeRuntimeData> for ComputeRuntimeDataBuilder {
    fn build(self) -> (data: ComputeRuntimeData)
        ensures
            data == built_compute(self),
    {
        ComputeRuntimeData {
            group_count_x: self.group_count.x,
            group_count_y: self.group_count.y,
            group_count_z: self.group_count.z,
        }
    }
}

impl From<ComputeRuntimeDataBuilder> for ComputeRuntimeData {
    fn from(value: ComputeRuntimeDataBuilder) -> (data: ComputeRuntimeData) {
        value.build()
    }
}

impl FromSpecImpl<ComputeRuntimeDataBuilder> for ComputeRuntimeData {
    open spec fn obeys_from_spec() -> bool {
        true
    }

    open spec fn from_spec(value: ComputeRuntimeDataBuilder) -> ComputeRuntimeData {
        built_compute(value)
    }
}

/// Runtime data builder for vertex shaders.
#[derive(Debug, Clone)]
pub struct VertexRuntimeDataBuilder {
    pub first_vertex: u32,
    pub base_instance: u32,
    pub is_indexed_draw: bool,
}

/// Runtime data of a vertex shader, field by field as the shader reads it.
#[derive(Debug, Copy, Clone)]
pub struct VertexRuntimeData {
    pub first_vertex: u32,
    pub base_instance: u32,
    pub is_indexed_draw: bool,
}

/// The vertex data that a builder stands for.
pub open spec fn built_vertex(builder: VertexRuntimeDataBuilder) -> VertexRuntimeData {
    VertexRuntimeData {
        first_vertex: builder.first_vertex,
        base_instance: builder.base_instance,
        is_indexed_draw: builder.is_indexed_draw,
    }
}

impl RuntimeDataBuilder<VertexRuntimeData> for VertexRuntimeDataBuilder {
    fn build(self) -> (data: VertexRuntimeData)
        ensures
            data == built_vertex(self),
    {
        VertexRuntimeData {
            first_vertex: self.first_vertex,
            base_instance: self.base_instance,
            is_indexed_draw: self.is_indexed_draw,
        }
    }
}

impl From<VertexRuntimeDataBuilder> for VertexRuntimeData {
    fn from(value: VertexRuntimeDataBuilder) -> (data: VertexRuntimeData) {
        value.build()
    }
}

impl FromSpecImpl<VertexRuntimeDataBuilder> for VertexRuntimeData {
    open spec fn obeys_from_spec() -> bool {
        true
    }

    open spec fn from_spec(value: VertexRuntimeDataBuilder) -> VertexRuntimeData {
        built_vertex(value)
    }
}

} // verus!
