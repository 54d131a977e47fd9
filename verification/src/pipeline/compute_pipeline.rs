//! Compute pipelines.
//!
//! A compute pipeline is made of one compute shader and the pipeline layout
//! that its descriptors are bound through. [`ComputePipeline::new`] checks
//! that the layout offers what the shader expects and packs the parameters of
//! the native creation call; [`PendingComputePipeline::finish`] turns the
//! driver's answer into the pipeline or into the error. Every failure hands
//! back the pipeline layout that is left to release.
use crate::descriptor::pipeline_layout::PipelineLayout;
use crate::descriptor::pipeline_layout::PipelineLayoutDesc;
use crate::device::DeviceId;
use crate::device::DeviceOwned;
use crate::error::Error;
use crate::error::OomError;
use crate::pipeline::shader::ComputeShaderEntryPoint;
use crate::pipeline::shader::SpecializationConstants;
use crate::pipeline::shader::SpecializationMapEntry;
use std::sync::Arc;
use vstd::prelude::*;

verus! {

/// Error that can happen when creating a compute pipeline.
#[derive(Debug, Clone, Copy, PartialEq, Eq, Structural)]
pub enum ComputePipelineCreationError {
    /// Not enough memory.
    OomError(OomError),
    /// The pipeline layout is not compatible with what the shader expects.
    IncompatiblePipelineLayout,
}

/// A creation that has failed: the error, and the pipeline layout that was
/// built for the pipeline and is left for the caller to release.
#[derive(Debug, PartialEq, Eq)]
pub struct FailedComputePipeline {
    /// Why the pipeline was not created.
    pub error: ComputePipelineCreationError,
    /// The pipeline layout to release, or `None` if none was built.
    pub release: Option<PipelineLayout>,
}

/// Specialization constants in the form that the native call takes them.
#[derive(Debug, Clone, Copy, PartialEq, Eq)]
pub struct SpecializationInfo<'a> {
    /// Number of constants.
    pub map_entry_count: u32,
    /// Where each constant lies in the data.
    pub map_entries: &'a Vec<SpecializationMapEntry>,
    /// Size in bytes of the data.
    pub data_size: usize,
    /// Values of the constants.
    pub data: &'a Vec<u8>,
}

/// Parameters of the compute stage of the native creation call.
#[derive(Debug, Clone, Copy, PartialEq, Eq)]
pub struct PipelineShaderStageCreateInfo<'a> {
    /// Handle of the shader module.
    pub module: u64,
    /// Name of the entry point.
    pub name: &'a String,
    /// Specialization constants, or `None` where there is no constant data.
    pub specialization_info: Option<SpecializationInfo<'a>>,
}

/// Parameters of the native call that creates a compute pipeline.
#[derive(Debug, Clone, Copy, PartialEq, Eq)]
pub struct ComputePipelineCreateInfo<'a> {
    /// The compute stage.
    pub stage: PipelineShaderStageCreateInfo<'a>,
    /// Handle of the native pipeline layout.
    pub layout: u64,
}

/// A compute pipeline whose layout passed the check against its shader and
/// whose native object has not been created yet.
#[derive(Debug, PartialEq, Eq)]
pub struct PendingComputePipeline<'a> {
    device: DeviceId,
    pipeline_layout: PipelineLayout,
    create_info: ComputePipelineCreateInfo<'a>,
}

/// A pipeline object that describes to the Vulkan implementation how it
/// should perform compute operations.
#[derive(Debug, PartialEq, Eq)]
pub struct ComputePipeline {
    inner: Inner,
    pipeline_layout: PipelineLayout,
}

#[derive(Debug, PartialEq, Eq)]
struct Inner {
    pipeline: u64,
    device: DeviceId,
}

/// Opaque object that represents the inside of the compute pipeline.
#[derive(Debug, Clone, Copy, PartialEq, Eq)]
pub struct ComputePipelineSys(u64);

/// The specialization constants as the native call takes them: absent where
/// there is no constant data, else the entries and the data as they are.
pub open spec fn packed_specialization<'a>(
    specialization: &'a SpecializationConstants,
) -> Option<SpecializationInfo<'a>> {
    if specialization.data@.len() == 0 {
        None
    } else {
        Some(
            (SpecializationInfo {
                map_entry_count: specialization.descriptors@.len() as u32,
                map_entries: &specialization.descriptors,
                data_size: specialization.data@.len() as usize,
                data: &specialization.data,
            }),
        )
    }
}

/// The parameters of the native call that creates the pipeline of `shader`
/// with the layout object `layout`.
pub open spec fn packed_create_info<'a>(
    shader: &'a ComputeShaderEntryPoint,
    layout: u64,
    specialization: &'a SpecializationConstants,
) -> ComputePipelineCreateInfo<'a> {
    ComputePipelineCreateInfo {
        stage: PipelineShaderStageCreateInfo {
            module: shader.module,
            name: &shader.name,
            specialization_info: packed_specialization(specialization),
        },
        layout,
    }
}

/// Packs specialization constants for the native call. Constants without
/// data are left out altogether.
pub fn pack_specialization<'a>(specialization: &'a SpecializationConstants) -> (info: Option<
    SpecializationInfo<'a>,
>)
    requires
        specialization.descriptors@.len() <= u32::MAX,
    ensures
        info == packed_specialization(specialization),
{
    if specialization.data.len() == 0 {
        None
    } else {
        Some(
            SpecializationInfo {
                map_entry_count: specialization.descriptors.len() as u32,
                map_entries: &specialization.descriptors,
                data_size: specialization.data.len(),
                data: &specialization.data,
            },
        )
    }
}

impl<'a> PendingComputePipeline<'a> {
    pub closed spec fn device_spec(&self) -> DeviceId {
        self.device
    }

    pub closed spec fn layout_spec(&self) -> &PipelineLayout {
        &self.pipeline_layout
    }

    pub closed spec fn create_info_spec(&self) -> ComputePipelineCreateInfo<'a> {
        self.create_info
    }

    /// Whether `pipeline` is what the creation call makes of this pending
    /// pipeline when the driver answers with `handle`.
    pub open spec fn creates(&self, handle: u64, pipeline: ComputePipeline) -> bool {
        &&& pipeline.internal_object() == handle
        &&& pipeline.device() == self.device()
        &&& pipeline.layout() == self.layout()
    }

    /// Returns the device that the pipeline is created on.
    #[verifier::when_used_as_spec(device_spec)]
    pub fn device(&self) -> (device: DeviceId)
        ensures
            device == self.device_spec(),
    {
        self.device
    }

    /// Returns the pipeline layout that the pipeline will use.
    #[verifier::when_used_as_spec(layout_spec)]
    pub fn layout(&self) -> (layout: &PipelineLayout)
        ensures
            layout == self.layout_spec(),
    {
        &self.pipeline_layout
    }

    /// Returns the parameters of the native creation call.
    #[verifier::when_used_as_spec(create_info_spec)]
    pub fn create_info(&self) -> (info: ComputePipelineCreateInfo<'a>)
        ensures
            info == self.create_info_spec(),
    {
        self.create_info
    }

    /// Completes the creation with the driver's answer to the creation call:
    /// the handle of the new native pipeline, or the failure.
    ///
    /// With a compatible layout the native call can only fail for want of
    /// memory; any other failure is a defect of the caller and is excluded by
    /// the precondition. A failure hands the pipeline layout back for
    /// release.
    pub fn finish(self, native: Result<u64, Error>) -> (result: Result<
        ComputePipeline,
        FailedComputePipeline,
    >)
        requires
            native matches Err(err) ==> err.is_out_of_memory(),
        ensures
            match native {
                Ok(handle) => result matches Ok(pipeline) && self.creates(handle, pipeline),
                Err(err) => result matches Err(failed) && OomError::of(err) matches Some(oom)
                    && failed.error == ComputePipelineCreationError::OomError(oom)
                    && failed.release == Some(*self.layout()),
            },
    {
        match native {
            Ok(handle) => Ok(
                ComputePipeline {
                    inner: Inner { device: self.device, pipeline: handle },
                    pipeline_layout: self.pipeline_layout,
                },
            ),
            Err(err) => Err(
                FailedComputePipeline {
                    error: ComputePipelineCreationError::from_error(err),
                    release: Some(self.pipeline_layout),
                },
            ),
        }
    }
}

impl ComputePipeline {
    pub closed spec fn owner(&self) -> DeviceId {
        self.inner.device
    }

    pub closed spec fn layout_spec(&self) -> &PipelineLayout {
        &self.pipeline_layout
    }

    pub closed spec fn internal_object_spec(&self) -> u64 {
        self.inner.pipeline
    }

    /// Takes the outcome of building the pipeline layout for the shader,
    /// checks that the layout offers every descriptor that the shader
    /// expects, and packs the parameters of the native creation call.
    ///
    /// A layout that could not be built for want of memory ends the
    /// creation with that error. A layout that does not suit the shader ends
    /// it too, and is handed back for release.
    pub fn new<'a>(
        device: DeviceId,
        shader: &'a ComputeShaderEntryPoint,
        pipeline_layout: Result<PipelineLayout, OomError>,
        specialization: &'a SpecializationConstants,
    ) -> (result: Result<PendingComputePipeline<'a>, FailedComputePipeline>)
        requires
            pipeline_layout matches Ok(built) && built.desc.is_superset_of_spec(&shader.layout)
                ==> specialization.descriptors@.len() <= u32::MAX,
        ensures
            match pipeline_layout {
                Err(oom) => result matches Err(failed) && failed.error
                    == ComputePipelineCreationError::OomError(oom) && failed.release is None,
                Ok(built) => if built.desc.is_superset_of_spec(&shader.layout) {
                    &&& result matches Ok(pending)
                    &&& pending.create_info() == packed_create_info(
                        shader,
                        built.handle,
                        specialization,
                    )
                    &&& pending.device() == device
                    &&& *pending.layout() == built
                } else {
                    &&& result matches Err(failed)
                    &&& failed.error == ComputePipelineCreationError::IncompatiblePipelineLayout
                    &&& failed.release == Some(built)
                },
            },
    {
        let pipeline_layout = match pipeline_layout {
            Ok(built) => built,
            Err(oom) => {
                return Err(
                    FailedComputePipeline {
                        error: ComputePipelineCreationError::OomError(oom),
                        release: None,
                    },
                );
            },
        };
        if !pipeline_layout.desc.is_superset_of(&shader.layout) {
            return Err(
                FailedComputePipeline {
                    error: ComputePipelineCreationError::IncompatiblePipelineLayout,
                    release: Some(pipeline_layout),
                },
            );
        }
        let stage = PipelineShaderStageCreateInfo {
            module: shader.module,
            name: &shader.name,
            specialization_info: pack_specialization(specialization),
        };
        let create_info = ComputePipelineCreateInfo { stage, layout: pipeline_layout.handle };
        Ok(PendingComputePipeline { device, pipeline_layout, create_info })
    }

    /// Returns the device this compute pipeline was created with.
    #[verifier::when_used_as_spec(owner)]
    pub fn device(&self) -> (device: DeviceId)
        ensures
            device == self.owner(),
    {
        self.inner.device
    }

    /// Returns the pipeline layout used in this compute pipeline.
    #[verifier::when_used_as_spec(layout_spec)]
    pub fn layout(&self) -> (layout: &PipelineLayout)
        ensures
            layout == self.layout_spec(),
    {
        &self.pipeline_layout
    }

    /// Returns the handle of the native pipeline layout.
    pub fn sys(&self) -> (handle: u64)
        ensures
            handle == self.layout().handle,
    {
        self.pipeline_layout.sys()
    }

    /// Returns the description of the descriptors of the pipeline layout.
    pub fn desc(&self) -> (desc: &PipelineLayoutDesc)
        ensures
            *desc == self.layout().desc,
    {
        self.pipeline_layout.desc()
    }

    /// Returns the handle of the native layout of a descriptor set of the
    /// pipeline layout, or `None` if there is no set of that number.
    pub fn descriptor_set_layout(&self, index: usize) -> (layout: Option<u64>)
        ensures
            layout == if index < self.layout().set_layouts@.len() {
                Some(self.layout().set_layouts@[index as int])
            } else {
                None
            },
    {
        self.pipeline_layout.descriptor_set_layout(index)
    }

    /// Returns the handle of the native pipeline object.
    #[verifier::when_used_as_spec(internal_object_spec)]
    pub fn internal_object(&self) -> (handle: u64)
        ensures
            handle == self.internal_object_spec(),
    {
        self.inner.pipeline
    }
}

impl DeviceOwned for ComputePipeline {
    open spec fn device_spec(&self) -> DeviceId {
        self.device()
    }

    fn device(&self) -> (device: DeviceId) {
        self.inner.device
    }
}

impl ComputePipelineSys {
    pub closed spec fn internal_object_spec(&self) -> u64 {
        self.0
    }

    /// Returns the handle of the native pipeline object.
    #[verifier::when_used_as_spec(internal_object_spec)]
    pub fn internal_object(&self) -> (handle: u64)
        ensures
            handle == self.internal_object_spec(),
    {
        self.0
    }
}

/// Trait implemented on all compute pipelines.
pub trait ComputePipelineAbstract {
    /// The pipeline object that `inner` stands for.
    spec fn inner_spec(&self) -> ComputePipelineSys;

    /// Returns an opaque object that represents the inside of the compute
    /// pipeline.
    fn inner(&self) -> (sys: ComputePipelineSys)
        ensures
            sys == self.inner_spec(),
    ;
}

impl ComputePipelineAbstract for ComputePipeline {
    closed spec fn inner_spec(&self) -> ComputePipelineSys {
        ComputePipelineSys(self.inner.pipeline)
    }

    fn inner(&self) -> (sys: ComputePipelineSys)
        ensures
            sys.internal_object() == self.internal_object(),
    {
        ComputePipelineSys(self.inner.pipeline)
    }
}

impl ComputePipelineAbstract for Arc<ComputePipeline> {
    open spec fn inner_spec(&self) -> ComputePipelineSys {
        (**self).inner_spec()
    }

    fn inner(&self) -> (sys: ComputePipelineSys)
        ensures
            sys.internal_object() == (**self).internal_object(),
    {
        (**self).inner()
    }
}

impl ComputePipelineCreationError {
    /// Text of `description`.
    pub open spec fn description_spec(&self) -> Seq<char> {
        match self {
            ComputePipelineCreationError::OomError(_) => "not enough memory available"@,
            ComputePipelineCreationError::IncompatiblePipelineLayout => "the pipeline layout is not compatible with what the shader expects"@,
        }
    }

    /// The memory error behind this error, if there is one.
    pub open spec fn cause_spec(&self) -> Option<OomError> {
        match self {
            ComputePipelineCreationError::OomError(err) => Some(*err),
            _ => None,
        }
    }

    /// Converts a failure of the native creation call. Only the two failures
    /// that report exhausted memory can come out of that call once the layout
    /// has been checked; any other failure is excluded by the precondition.
    pub fn from_error(err: Error) -> (converted: ComputePipelineCreationError)
        requires
            err.is_out_of_memory(),
        ensures
            OomError::of(err) matches Some(oom) && converted
                == ComputePipelineCreationError::OomError(oom),
    {
        match err {
            err @ Error::OutOfHostMemory => ComputePipelineCreationError::OomError(
                OomError::from_error(err),
            ),
            err @ Error::OutOfDeviceMemory => ComputePipelineCreationError::OomError(
                OomError::from_error(err),
            ),
            _ => unreached(),
        }
    }

    /// Returns a short description of the error.
    pub fn description(&self) -> (text: &'static str)
        ensures
            text@ == self.description_spec(),
    {
        match self {
            ComputePipelineCreationError::OomError(_) => "not enough memory available",
            ComputePipelineCreationError::IncompatiblePipelineLayout => "the pipeline layout is not compatible with what the shader expects",
        }
    }

    /// Returns the lower-level error that caused this one, if any.
    #[verifier::when_used_as_spec(cause_spec)]
    pub fn cause(&self) -> (cause: Option<OomError>)
        ensures
            cause == self.cause_spec(),
    {
        match self {
            ComputePipelineCreationError::OomError(err) => Some(*err),
            _ => None,
        }
    }

    /// Returns the text that the error is displayed with: its description.
    pub fn to_string(&self) -> (text: String)
        ensures
            text@ == self.description_spec(),
    {
        self.description().to_owned()
    }
}

impl From<OomError> for ComputePipelineCreationError {
    fn from(err: OomError) -> (converted: ComputePipelineCreationError) {
        ComputePipelineCreationError::OomError(err)
    }
}

impl vstd::std_specs::convert::FromSpecImpl<OomError> for ComputePipelineCreationError {
    open spec fn obeys_from_spec() -> bool {
        true
    }

    open spec fn from_spec(err: OomError) -> ComputePipelineCreationError {
        ComputePipelineCreationError::OomError(err)
    }
}

} // verus!
