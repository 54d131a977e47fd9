//! Description of a single descriptor.
use vstd::prelude::*;

verus! {

/// Kind of resource that a descriptor gives access to.
#[derive(Debug, Clone, Copy, PartialEq, Eq, Structural)]
pub enum DescriptorType {
    Sampler,
    CombinedImageSampler,
    SampledImage,
    StorageImage,
    UniformTexelBuffer,
    StorageTexelBuffer,
    UniformBuffer,
    StorageBuffer,
    UniformBufferDynamic,
    StorageBufferDynamic,
    InputAttachment,
}

/// Set of shader stages.
#[derive(Debug, Clone, Copy, PartialEq, Eq, Structural)]
pub struct ShaderStages {
    pub vertex: bool,
    pub tessellation_control: bool,
    pub tessellation_evaluation: bool,
    pub geometry: bool,
    pub fragment: bool,
    pub compute: bool,
}

/// What a shader expects of one binding, or what a layout offers at it.
#[derive(Debug, Clone, Copy, PartialEq, Eq, Structural)]
pub struct DescriptorDesc {
    /// Kind of resource.
    pub ty: DescriptorType,
    /// Number of array elements of the binding.
    pub array_count: u32,
    /// Stages that reach the binding.
    pub stages: ShaderStages,
    /// True if the binding is only ever read.
    pub readonly: bool,
}

impl ShaderStages {
    /// Every stage of `other` is a stage of `self`.
    pub open spec fn is_superset_of_spec(&self, other: &ShaderStages) -> bool {
        &&& other.vertex ==> self.vertex
        &&& other.tessellation_control ==> self.tessellation_control
        &&& other.tessellation_evaluation ==> self.tessellation_evaluation
        &&& other.geometry ==> self.geometry
        &&& other.fragment ==> self.fragment
        &&& other.compute ==> self.compute
    }

    /// The set that holds the compute stage alone.
    pub open spec fn compute_spec() -> ShaderStages {
        ShaderStages {
            vertex: false,
            tessellation_control: false,
            tessellation_evaluation: false,
            geometry: false,
            fragment: false,
            compute: true,
        }
    }

    /// Builds the set that holds the compute stage alone.
    #[verifier::when_used_as_spec(compute_spec)]
    pub fn compute() -> (stages: ShaderStages)
        ensures
            stages == ShaderStages::compute_spec(),
    {
        ShaderStages {
            vertex: false,
            tessellation_control: false,
            tessellation_evaluation: false,
            geometry: false,
            fragment: false,
            compute: true,
        }
    }

    /// Returns true if every stage of `other` is also in `self`.
    #[verifier::when_used_as_spec(is_superset_of_spec)]
    pub fn is_superset_of(&self, other: &ShaderStages) -> (superset: bool)
        ensures
            superset == self.is_superset_of_spec(other),
    {
        (self.vertex || !other.vertex) && (self.tessellation_control
            || !other.tessellation_control) && (self.tessellation_evaluation
            || !other.tessellation_evaluation) && (self.geometry || !other.geometry) && (
        self.fragment || !other.fragment) && (self.compute || !other.compute)
    }
}

impl DescriptorDesc {
    /// A descriptor offered as `self` serves a shader that expects `other`:
    /// the same kind of resource, at least as many array elements, at least
    /// the same stages, and not read-only unless the shader only reads.
    pub open spec fn is_superset_of_spec(&self, other: &DescriptorDesc) -> bool {
        &&& self.ty == other.ty
        &&& self.array_count >= other.array_count
        &&& self.stages.is_superset_of(&other.stages)
        &&& (self.readonly ==> other.readonly)
    }

    /// Checks whether a descriptor of a pipeline layout can stand for the
    /// descriptor that a shader expects.
    #[verifier::when_used_as_spec(is_superset_of_spec)]
    pub fn is_superset_of(&self, other: &DescriptorDesc) -> (superset: bool)
        ensures
            superset == self.is_superset_of_spec(other),
    {
        self.ty == other.ty && self.array_count >= other.array_count
            && self.stages.is_superset_of(&other.stages) && (!self.readonly || other.readonly)
    }
}

} // verus!
