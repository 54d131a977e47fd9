//! Entry points of shader modules and the constants that specialize them.
use crate::descriptor::pipeline_layout::PipelineLayoutDesc;
use vstd::prelude::*;

verus! {

/// Where one specialization constant lies in the block of constant data.
#[derive(Debug, Clone, Copy, PartialEq, Eq, Structural)]
pub struct SpecializationMapEntry {
    /// Identifier of the constant in the shader.
    pub constant_id: u32,
    /// Offset in bytes of the value within the data.
    pub offset: u32,
    /// Size in bytes of the value.
    pub size: usize,
}

/// Values for the specialization constants of a shader: the bytes of the
/// values, and for each constant where its value lies in them.
#[derive(Debug, Clone, PartialEq, Eq)]
pub struct SpecializationConstants {
    /// One entry for each constant.
    pub descriptors: Vec<SpecializationMapEntry>,
    /// The values, back to back.
    pub data: Vec<u8>,
}

/// The entry point of a compute shader in a shader module.
#[derive(Debug, Clone, PartialEq, Eq)]
pub struct ComputeShaderEntryPoint {
    /// Handle of the native shader module.
    pub module: u64,
    /// Name of the entry point.
    pub name: String,
    /// Descriptors that the shader uses.
    pub layout: PipelineLayoutDesc,
}

impl ComputeShaderEntryPoint {
    /// Returns the handle of the shader module that holds the entry point.
    pub fn module(&self) -> (module: u64)
        ensures
            module == self.module,
    {
        self.module
    }

    /// Returns the name of the entry point.
    pub fn name(&self) -> (name: &String)
        ensures
            name == self.name,
    {
        &self.name
    }

    /// Returns the description of the descriptors that the shader uses.
    pub fn layout(&self) -> (layout: &PipelineLayoutDesc)
        ensures
            layout == self.layout,
    {
        &self.layout
    }
}

} // verus!
