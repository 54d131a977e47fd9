//! Images whose purpose is to be used as a framebuffer attachment.
//!
//! An attachment image is two-dimensional and has one mipmap level. Its
//! format decides whether it is a color or a depth-stencil attachment.
//!
//! Creating one takes four native calls: the image, its memory, the binding
//! of the two, and a view of the whole image. [`AttachmentImage::new`] plans
//! the image and returns the creation in its first stage. The caller hands
//! the [`DriverRequest`] of each stage to the driver and the driver's
//! [`DriverReply`] to [`AttachmentImageCreation::advance`], until the
//! [`Progress`] is the image, or the error together with the native objects
//! that are left to release.
use crate::error::OomError;
use crate::format::Format;
use crate::format::FormatTy;
use crate::image::Dimensions;
use crate::image::ImageCreationError;
use crate::image::ImageDimensions;
use crate::image::Layout;
use crate::image::Usage;
use crate::image::ViewType;
use crate::memory::preferred_memory_type;
use crate::memory::select_memory_type;
use crate::memory::AllocLayout;
use crate::memory::MemoryAlloc;
use crate::memory::MemoryRequirements;
use crate::memory::MemoryType;
use crate::sync::count_after_attempt;
use crate::sync::count_after_increase;
use crate::sync::count_after_release;
use crate::sync::lock_granted;
use crate::sync::state_after_attempt;
use crate::sync::state_of_clone;
use crate::sync::AccessState;
use crate::sync::GpuLock;
use std::sync::Arc;
use vstd::prelude::*;

verus! {

/// What is decided about an attachment image before any native call.
#[derive(Debug, Clone, Copy, PartialEq, Eq)]
pub struct ImagePlan {
    /// Format of the image.
    pub format: Format,
    /// Dimensions of the image.
    pub dimensions: ImageDimensions,
    /// Usage that the image is created with.
    pub usage: Usage,
    /// Layout to use when the image is used as a framebuffer attachment.
    pub attachment_layout: Layout,
}

/// Parameters of the native call that creates the image.
#[derive(Debug, Clone, Copy, PartialEq, Eq)]
pub struct ImageCreateInfo {
    pub usage: Usage,
    pub format: Format,
    pub dimensions: ImageDimensions,
    pub samples: u32,
    pub mipmaps: u32,
    /// True if the image is used by one queue family at a time.
    pub exclusive: bool,
    pub linear_tiling: bool,
    pub preinitialized_layout: bool,
}

/// Parameters of the native call that creates the view of the image.
#[derive(Debug, Clone, Copy, PartialEq, Eq)]
pub struct ImageViewCreateInfo {
    /// Handle of the native image.
    pub image: u64,
    pub ty: ViewType,
    /// First mipmap level of the view and the level after its last one.
    pub mipmap_levels: (u32, u32),
    /// First array layer of the view and the layer after its last one.
    pub array_layers: (u32, u32),
}

/// What the caller is to ask of the driver next.
#[derive(Debug, Clone, Copy, PartialEq, Eq)]
pub enum DriverRequest {
    /// Create the native image and report its memory requirements.
    CreateImage(ImageCreateInfo),
    /// Allocate memory for the image from the standard pool of the device.
    AllocateMemory { memory_type: MemoryType, size: usize, alignment: usize, layout: AllocLayout },
    /// Bind the memory to the image.
    BindMemory { image: u64, memory: MemoryAlloc },
    /// Create the native view of the image.
    CreateImageView(ImageViewCreateInfo),
}

/// The driver's answer to a request.
#[derive(Debug, Clone, Copy, PartialEq, Eq)]
pub enum DriverReply {
    /// Answer to `CreateImage`: the handle of the image and its memory
    /// requirements.
    ImageCreated(Result<(u64, MemoryRequirements), ImageCreationError>),
    /// Answer to `AllocateMemory`.
    MemoryAllocated(Result<MemoryAlloc, OomError>),
    /// Answer to `BindMemory`.
    MemoryBound(Result<(), OomError>),
    /// Answer to `CreateImageView`: the handle of the view.
    ImageViewCreated(Result<u64, OomError>),
}

/// How far the creation of an attachment image has come, with the native
/// objects that exist so far.
#[derive(Debug, Clone, Copy, PartialEq, Eq)]
pub enum Stage {
    AwaitingImage,
    AwaitingMemory { image: u64, requirements: MemoryRequirements, memory_type: MemoryType },
    AwaitingBind { image: u64, memory: MemoryAlloc },
    AwaitingView { image: u64, memory: MemoryAlloc },
}

/// The native objects of a failed creation that the caller has to release:
/// first the memory, then the image.
#[derive(Debug, Clone, Copy, PartialEq, Eq, Structural)]
pub struct Releases {
    pub memory: Option<MemoryAlloc>,
    pub image: Option<u64>,
}

/// An attachment image in the making.
#[derive(Debug, PartialEq, Eq)]
pub struct AttachmentImageCreation<'a> {
    plan: ImagePlan,
    memory_types: &'a Vec<MemoryType>,
    stage: Stage,
}

/// Where a creation stands after a reply of the driver.
#[derive(Debug, PartialEq, Eq)]
pub enum Progress<'a> {
    /// The next request is to be made.
    Continue(AttachmentImageCreation<'a>),
    /// The image is complete.
    Done(Arc<AttachmentImage>),
    /// The creation has failed. Nothing of it is left but what `release`
    /// lists.
    Failed { error: ImageCreationError, release: Releases },
}

/// ImageAccess whose purpose is to be used as a framebuffer attachment.
///
/// The image is always two-dimensional and has only one mipmap, but it can
/// have any kind of format.
///
/// A *transient* image is a special kind of image whose content is undefined
/// outside of render passes: the implementation may keep it in cache memory
/// only.
#[derive(Debug, PartialEq, Eq)]
pub struct AttachmentImage {
    // Inner implementation.
    image: u64,
    // We maintain a view of the whole image since we will need it when rendering.
    view: u64,
    // Memory used to back the image.
    memory: MemoryAlloc,
    // Format, dimensions, usage and attachment layout.
    plan: ImagePlan,
}

/// GPU access to an attachment image.
///
/// The access remembers whether it has tried to lock the image, so that
/// only its first attempt can be granted, and whether it is counted in the
/// lock of the image, so that its release takes off the counter what it has
/// put there and nothing else.
#[derive(Debug)]
pub struct AttachmentImageAccess {
    img: Arc<AttachmentImage>,
    // True if `try_gpu_lock` was already called on it.
    already_locked: bool,
    // True if the access is counted in the lock of the image.
    counted: bool,
}

/// Whether images of a family of formats are depth or stencil attachments.
pub open spec fn is_depth_stencil(ty: FormatTy) -> bool {
    ty == FormatTy::Depth || ty == FormatTy::DepthStencil || ty == FormatTy::Stencil
}

/// The plan of a two-dimensional attachment image: the usage is `base_usage`
/// with the attachment flags set by the family of the format, and the
/// attachment layout follows the family too.
pub open spec fn planned(dimensions: [u32; 2], format: Format, base_usage: Usage) -> ImagePlan {
    let is_depth = is_depth_stencil(format.ty());
    ImagePlan {
        format,
        dimensions: ImageDimensions::Dim2d {
            width: dimensions[0],
            height: dimensions[1],
            array_layers: 1,
            cubemap_compatible: false,
        },
        usage: Usage { color_attachment: !is_depth, depth_stencil_attachment: is_depth, ..base_usage },
        attachment_layout: if is_depth {
            Layout::DepthStencilAttachmentOptimal
        } else {
            Layout::ColorAttachmentOptimal
        },
    }
}

impl ImagePlan {
    /// The image is either a color or a depth-stencil attachment, and its
    /// attachment layout says which.
    pub open spec fn is_attachment(&self) -> bool {
        ||| self.attachment_layout == Layout::ColorAttachmentOptimal && self.usage.color_attachment
            && !self.usage.depth_stencil_attachment
        ||| self.attachment_layout == Layout::DepthStencilAttachmentOptimal
            && self.usage.depth_stencil_attachment && !self.usage.color_attachment
    }

    /// Parameters of the native image: one sample, one mipmap level, used by
    /// one queue family at a time, optimal tiling, no initial content.
    pub open spec fn image_create_info(&self) -> ImageCreateInfo {
        ImageCreateInfo {
            usage: self.usage,
            format: self.format,
            dimensions: self.dimensions,
            samples: 1,
            mipmaps: 1,
            exclusive: true,
            linear_tiling: false,
            preinitialized_layout: false,
        }
    }
}

/// Parameters of the view of the whole of an attachment image.
pub open spec fn whole_image_view(image: u64) -> ImageViewCreateInfo {
    ImageViewCreateInfo { image, ty: ViewType::Dim2d, mipmap_levels: (0, 1), array_layers: (0, 1) }
}

impl Stage {
    /// The native image that exists at this stage, if any.
    pub open spec fn image(&self) -> Option<u64> {
        match self {
            Stage::AwaitingImage => None,
            Stage::AwaitingMemory { image, .. } => Some(*image),
            Stage::AwaitingBind { image, .. } => Some(*image),
            Stage::AwaitingView { image, .. } => Some(*image),
        }
    }

    /// The memory that has been allocated at this stage, if any.
    pub open spec fn memory(&self) -> Option<MemoryAlloc> {
        match self {
            Stage::AwaitingImage => None,
            Stage::AwaitingMemory { .. } => None,
            Stage::AwaitingBind { memory, .. } => Some(*memory),
            Stage::AwaitingView { memory, .. } => Some(*memory),
        }
    }

    /// Number of native calls that are still to be made at this stage.
    pub open spec fn remaining_calls(&self) -> nat {
        match self {
            Stage::AwaitingImage => 4,
            Stage::AwaitingMemory { .. } => 3,
            Stage::AwaitingBind { .. } => 2,
            Stage::AwaitingView { .. } => 1,
        }
    }

    /// The request that is pending at this stage of the creation of an image
    /// with the given plan.
    pub open spec fn request(&self, plan: ImagePlan) -> DriverRequest {
        match self {
            Stage::AwaitingImage => DriverRequest::CreateImage(plan.image_create_info()),
            Stage::AwaitingMemory { requirements, memory_type, .. } => DriverRequest::AllocateMemory {
                memory_type: *memory_type,
                size: requirements.size,
                alignment: requirements.alignment,
                layout: AllocLayout::Optimal,
            },
            Stage::AwaitingBind { image, memory } => DriverRequest::BindMemory {
                image: *image,
                memory: *memory,
            },
            Stage::AwaitingView { image, .. } => DriverRequest::CreateImageView(
                whole_image_view(*image),
            ),
        }
    }
}

impl<'a> AttachmentImageCreation<'a> {
    #[verifier::type_invariant]
    spec fn well_formed(&self) -> bool {
        self.plan.is_attachment()
    }

    pub closed spec fn plan_spec(&self) -> ImagePlan {
        self.plan
    }

    pub closed spec fn stage_spec(&self) -> Stage {
        self.stage
    }

    /// The memory types of the device that the image is created on.
    pub closed spec fn memory_types(&self) -> Seq<MemoryType> {
        self.memory_types@
    }

    /// The request that the caller is to make of the driver now.
    pub open spec fn request_spec(&self) -> DriverRequest {
        self.stage().request(self.plan())
    }

    /// Whether `reply` answers the pending request in a way that the
    /// creation can go on from.
    ///
    /// The reply must be of the kind that the stage waits for. Where it
    /// brings the memory requirements of the image, the device must have a
    /// memory type that suits them.
    pub open spec fn expects_spec(&self, reply: &DriverReply) -> bool {
        match (self.stage(), *reply) {
            (Stage::AwaitingImage, DriverReply::ImageCreated(created)) => created matches Ok(
                (_, requirements),
            ) ==> preferred_memory_type(self.memory_types(), requirements.memory_type_bits)
                is Some,
            (Stage::AwaitingMemory { .. }, DriverReply::MemoryAllocated(_)) => true,
            (Stage::AwaitingBind { .. }, DriverReply::MemoryBound(_)) => true,
            (Stage::AwaitingView { .. }, DriverReply::ImageViewCreated(_)) => true,
            _ => false,
        }
    }

    /// Whether `next` carries this creation on at `stage`.
    pub open spec fn continues_at(&self, stage: Stage, next: AttachmentImageCreation<'a>) -> bool {
        &&& next.plan() == self.plan()
        &&& next.memory_types() == self.memory_types()
        &&& next.stage() == stage
    }

    /// Whether `progress` is where the creation stands after `reply`.
    ///
    /// A success moves the creation to the next stage, and the last one
    /// completes the image. A failure ends the creation with the error of the
    /// reply and lists every native object that exists at this stage for
    /// release.
    pub open spec fn advances_to(&self, reply: DriverReply, progress: Progress<'a>) -> bool {
        match (self.stage(), reply) {
            (Stage::AwaitingImage, DriverReply::ImageCreated(Ok((image, requirements)))) => {
                &&& progress matches Progress::Continue(next)
                &&& preferred_memory_type(
                    self.memory_types(),
                    requirements.memory_type_bits,
                ) matches Some(memory_type)
                &&& self.continues_at(
                    Stage::AwaitingMemory { image, requirements, memory_type },
                    next,
                )
            },
            (Stage::AwaitingImage, DriverReply::ImageCreated(Err(error))) => {
                progress matches Progress::Failed { error: reported, release } && reported == error
                    && release == self.releases()
            },
            (Stage::AwaitingMemory { image, .. }, DriverReply::MemoryAllocated(Ok(memory))) => {
                &&& progress matches Progress::Continue(next)
                &&& self.continues_at(Stage::AwaitingBind { image, memory }, next)
            },
            (Stage::AwaitingBind { image, memory }, DriverReply::MemoryBound(Ok(_))) => {
                &&& progress matches Progress::Continue(next)
                &&& self.continues_at(Stage::AwaitingView { image, memory }, next)
            },
            (Stage::AwaitingView { image, memory }, DriverReply::ImageViewCreated(Ok(view))) => {
                &&& progress matches Progress::Done(created)
                &&& created.plan() == self.plan()
                &&& created.image() == image
                &&& created.view() == view
                &&& created.memory() == memory
            },
            (Stage::AwaitingMemory { .. }, DriverReply::MemoryAllocated(Err(oom)))
            | (Stage::AwaitingBind { .. }, DriverReply::MemoryBound(Err(oom)))
            | (Stage::AwaitingView { .. }, DriverReply::ImageViewCreated(Err(oom))) => {
                progress matches Progress::Failed { error: reported, release } && reported
                    == ImageCreationError::OomError(oom) && release == self.releases()
            },
            _ => false,
        }
    }

    /// The native objects that exist at this stage: what a failure leaves to
    /// release.
    pub open spec fn releases(&self) -> Releases {
        Releases { memory: self.stage().memory(), image: self.stage().image() }
    }

    /// Returns what has been decided about the image.
    #[verifier::when_used_as_spec(plan_spec)]
    pub fn plan(&self) -> (plan: ImagePlan)
        ensures
            plan == self.plan_spec(),
            plan.is_attachment(),
    {
        proof {
            use_type_invariant(self);
        }
        self.plan
    }

    /// Returns the stage of the creation.
    #[verifier::when_used_as_spec(stage_spec)]
    pub fn stage(&self) -> (stage: Stage)
        ensures
            stage == self.stage_spec(),
    {
        self.stage
    }

    /// Returns the request that the caller is to make of the driver now.
    #[verifier::when_used_as_spec(request_spec)]
    pub fn request(&self) -> (request: DriverRequest)
        ensures
            request == self.request_spec(),
    {
        match self.stage {
            Stage::AwaitingImage => DriverRequest::CreateImage(
                ImageCreateInfo {
                    usage: self.plan.usage,
                    format: self.plan.format,
                    dimensions: self.plan.dimensions,
                    samples: 1,
                    mipmaps: 1,
                    exclusive: true,
                    linear_tiling: false,
                    preinitialized_layout: false,
                },
            ),
            Stage::AwaitingMemory { requirements, memory_type, .. } => DriverRequest::AllocateMemory {
                memory_type,
                size: requirements.size,
                alignment: requirements.alignment,
                layout: AllocLayout::Optimal,
            },
            Stage::AwaitingBind { image, memory } => DriverRequest::BindMemory { image, memory },
            Stage::AwaitingView { image, .. } => DriverRequest::CreateImageView(
                ImageViewCreateInfo {
                    image,
                    ty: ViewType::Dim2d,
                    mipmap_levels: (0, 1),
                    array_layers: (0, 1),
                },
            ),
        }
    }

    /// Returns true if the creation can go on from `reply`, as `advance`
    /// demands.
    #[verifier::when_used_as_spec(expects_spec)]
    pub fn expects(&self, reply: &DriverReply) -> (expected: bool)
        ensures
            expected == self.expects_spec(reply),
    {
        match (self.stage, *reply) {
            (Stage::AwaitingImage, DriverReply::ImageCreated(created)) => match created {
                Ok((_, requirements)) => select_memory_type(
                    self.memory_types,
                    requirements.memory_type_bits,
                ).is_some(),
                Err(_) => true,
            },
            (Stage::AwaitingMemory { .. }, DriverReply::MemoryAllocated(_)) => true,
            (Stage::AwaitingBind { .. }, DriverReply::MemoryBound(_)) => true,
            (Stage::AwaitingView { .. }, DriverReply::ImageViewCreated(_)) => true,
            _ => false,
        }
    }

    /// Takes the driver's reply to the pending request and moves the
    /// creation on.
    pub fn advance(self, reply: DriverReply) -> (progress: Progress<'a>)
        requires
            self.expects(&reply),
        ensures
            self.advances_to(reply, progress),
    {
        proof {
            use_type_invariant(&self);
        }
        let release = Releases {
            memory: match self.stage {
                Stage::AwaitingBind { memory, .. } => Some(memory),
                Stage::AwaitingView { memory, .. } => Some(memory),
                _ => None,
            },
            image: match self.stage {
                Stage::AwaitingImage => None,
                Stage::AwaitingMemory { image, .. } => Some(image),
                Stage::AwaitingBind { image, .. } => Some(image),
                Stage::AwaitingView { image, .. } => Some(image),
            },
        };
        let AttachmentImageCreation { plan, memory_types, stage } = self;
        match (stage, reply) {
            (Stage::AwaitingImage, DriverReply::ImageCreated(Ok((image, requirements)))) => {
                match select_memory_type(memory_types, requirements.memory_type_bits) {
                    Some(memory_type) => Progress::Continue(
                        AttachmentImageCreation {
                            plan,
                            memory_types,
                            stage: Stage::AwaitingMemory { image, requirements, memory_type },
                        },
                    ),
                    None => unreached(),
                }
            },
            (Stage::AwaitingImage, DriverReply::ImageCreated(Err(error))) => Progress::Failed {
                error,
                release,
            },
            (Stage::AwaitingMemory { image, .. }, DriverReply::MemoryAllocated(Ok(memory))) => {
                Progress::Continue(
                    AttachmentImageCreation {
                        plan,
                        memory_types,
                        stage: Stage::AwaitingBind { image, memory },
                    },
                )
            },
            (Stage::AwaitingBind { image, memory }, DriverReply::MemoryBound(Ok(_))) => {
                Progress::Continue(
                    AttachmentImageCreation {
                        plan,
                        memory_types,
                        stage: Stage::AwaitingView { image, memory },
                    },
                )
            },
            (Stage::AwaitingView { image, memory }, DriverReply::ImageViewCreated(Ok(view))) => {
                Progress::Done(Arc::new(AttachmentImage { image, view, memory, plan }))
            },
            (_, DriverReply::MemoryAllocated(Err(oom))) => Progress::Failed {
                error: ImageCreationError::OomError(oom),
                release,
            },
            (_, DriverReply::MemoryBound(Err(oom))) => Progress::Failed {
                error: ImageCreationError::OomError(oom),
                release,
            },
            (_, DriverReply::ImageViewCreated(Err(oom))) => Progress::Failed {
                error: ImageCreationError::OomError(oom),
                release,
            },
            _ => unreached(),
        }
    }
}

impl AttachmentImage {
    #[verifier::type_invariant]
    spec fn well_formed(&self) -> bool {
        self.plan.is_attachment()
    }

    pub closed spec fn plan_spec(&self) -> ImagePlan {
        self.plan
    }

    pub closed spec fn image_spec(&self) -> u64 {
        self.image
    }

    pub closed spec fn view_spec(&self) -> u64 {
        self.view
    }

    pub closed spec fn memory_spec(&self) -> MemoryAlloc {
        self.memory
    }

    /// Whether `progress` is the start of the creation of the image that
    /// `plan` describes, on a device with the given memory types.
    pub open spec fn starts(
        plan: ImagePlan,
        memory_types: Seq<MemoryType>,
        progress: Progress<'_>,
    ) -> bool {
        &&& progress matches Progress::Continue(creation)
        &&& creation.plan() == plan
        &&& creation.memory_types() == memory_types
        &&& creation.stage() == Stage::AwaitingImage
    }

    /// Starts the creation of a new image with the given dimensions and
    /// format, on a device with the given memory types.
    pub fn new<'a>(memory_types: &'a Vec<MemoryType>, dimensions: [u32; 2], format: Format) -> (progress:
        Progress<'a>)
        requires
            format.ty() != FormatTy::Compressed,
        ensures
            AttachmentImage::starts(planned(dimensions, format, Usage::none()), memory_types@, progress),
    {
        AttachmentImage::new_impl(memory_types, dimensions, format, Usage::none())
    }

    /// Same as `new`, but lets you specify additional usages.
    pub fn with_usage<'a>(
        memory_types: &'a Vec<MemoryType>,
        dimensions: [u32; 2],
        format: Format,
        usage: Usage,
    ) -> (progress: Progress<'a>)
        requires
            format.ty() != FormatTy::Compressed,
        ensures
            AttachmentImage::starts(planned(dimensions, format, usage), memory_types@, progress),
    {
        AttachmentImage::new_impl(memory_types, dimensions, format, usage)
    }

    /// Same as `new`, except that the image will be transient.
    ///
    /// A transient image is special because its content is undefined outside
    /// of a render pass. This means that the implementation has the
    /// possibility to not allocate any memory for it.
    pub fn transient<'a>(memory_types: &'a Vec<MemoryType>, dimensions: [u32; 2], format: Format) -> (progress:
        Progress<'a>)
        requires
            format.ty() != FormatTy::Compressed,
        ensures
            AttachmentImage::starts(
                planned(
                    dimensions,
                    format,
                    (Usage { transient_attachment: true, ..Usage::none() }),
                ),
                memory_types@,
                progress,
            ),
    {
        let base_usage = Usage { transient_attachment: true, ..Usage::none() };
        AttachmentImage::new_impl(memory_types, dimensions, format, base_usage)
    }

    fn new_impl<'a>(
        memory_types: &'a Vec<MemoryType>,
        dimensions: [u32; 2],
        format: Format,
        base_usage: Usage,
    ) -> (progress: Progress<'a>)
        requires
            format.ty() != FormatTy::Compressed,
        ensures
            AttachmentImage::starts(planned(dimensions, format, base_usage), memory_types@, progress),
    {
        let is_depth = match format.ty() {
            FormatTy::Depth => true,
            FormatTy::DepthStencil => true,
            FormatTy::Stencil => true,
            _ => false,
        };
        let usage = Usage {
            color_attachment: !is_depth,
            depth_stencil_attachment: is_depth,
            ..base_usage
        };
        let plan = ImagePlan {
            format,
            dimensions: ImageDimensions::Dim2d {
                width: dimensions[0],
                height: dimensions[1],
                array_layers: 1,
                cubemap_compatible: false,
            },
            usage,
            attachment_layout: if is_depth {
                Layout::DepthStencilAttachmentOptimal
            } else {
                Layout::ColorAttachmentOptimal
            },
        };
        Progress::Continue(AttachmentImageCreation { plan, memory_types, stage: Stage::AwaitingImage })
    }

    /// Returns what was decided about the image when it was planned.
    #[verifier::when_used_as_spec(plan_spec)]
    pub fn plan(&self) -> (plan: ImagePlan)
        ensures
            plan == self.plan_spec(),
            plan.is_attachment(),
    {
        proof {
            use_type_invariant(self);
        }
        self.plan
    }

    /// Returns the handle of the native image.
    #[verifier::when_used_as_spec(image_spec)]
    pub fn image(&self) -> (image: u64)
        ensures
            image == self.image_spec(),
    {
        self.image
    }

    /// Returns the handle of the native view of the whole image.
    #[verifier::when_used_as_spec(view_spec)]
    pub fn view(&self) -> (view: u64)
        ensures
            view == self.view_spec(),
    {
        self.view
    }

    /// Returns the memory that backs the image.
    #[verifier::when_used_as_spec(memory_spec)]
    pub fn memory(&self) -> (memory: MemoryAlloc)
        ensures
            memory == self.memory_spec(),
    {
        self.memory
    }

    /// Returns the format of the image.
    pub fn format(&self) -> (format: Format)
        ensures
            format == self.plan().format,
    {
        self.plan.format
    }

    /// Returns the number of samples of each pixel of the image: always one.
    pub fn samples(&self) -> (samples: u32)
        ensures
            samples == 1,
    {
        1
    }

    /// Returns the dimensions of the image with its number of array layers.
    pub fn image_dimensions(&self) -> (dimensions: ImageDimensions)
        ensures
            dimensions == self.plan().dimensions,
    {
        self.plan.dimensions
    }

    /// Returns the dimensions of the image.
    pub fn dimensions(&self) -> (dimensions: [u32; 2])
        ensures
            dimensions[0] == self.plan().dimensions.width(),
            dimensions[1] == self.plan().dimensions.height(),
    {
        let dims = self.plan.dimensions;
        [dims.width(), dims.height()]
    }
}

/// The plan of an attachment image makes it a color attachment or a
/// depth-stencil attachment, never both and never neither: depth-stencil for
/// the depth and stencil families of formats, color for every other family.
pub proof fn lemma_planned_is_attachment(dimensions: [u32; 2], format: Format, base_usage: Usage)
    ensures
        planned(dimensions, format, base_usage).is_attachment(),
        planned(dimensions, format, base_usage).usage.depth_stencil_attachment == is_depth_stencil(
            format.ty(),
        ),
        planned(dimensions, format, base_usage).usage.color_attachment == !is_depth_stencil(
            format.ty(),
        ),
{
}

/// No native object is lost on the way. After a reply, every object that
/// existed before it is held by the next stage or by the finished image, or,
/// where the creation has failed, is listed for release; and a failed
/// creation lists nothing else.
pub proof fn lemma_native_objects_are_accounted_for<'a>(
    creation: AttachmentImageCreation<'a>,
    reply: DriverReply,
    progress: Progress<'a>,
)
    requires
        creation.advances_to(reply, progress),
    ensures
        match progress {
            Progress::Continue(next) => {
                &&& creation.stage().image() matches Some(image) ==> next.stage().image() == Some(
                    image,
                )
                &&& creation.stage().memory() matches Some(memory) ==> next.stage().memory()
                    == Some(memory)
                &&& reply matches DriverReply::ImageCreated(Ok((image, _)))
                    ==> next.stage().image() == Some(image)
                &&& reply matches DriverReply::MemoryAllocated(Ok(memory))
                    ==> next.stage().memory() == Some(memory)
            },
            Progress::Done(created) => {
                &&& creation.stage().image() == Some(created.image())
                &&& creation.stage().memory() == Some(created.memory())
                &&& reply == DriverReply::ImageViewCreated(Ok(created.view()))
            },
            Progress::Failed { release, .. } => {
                &&& release.image == creation.stage().image()
                &&& release.memory == creation.stage().memory()
            },
        },
{
}

/// Every reply brings the creation one native call closer to its end: a
/// creation that goes on has one call less to make, and the reply to the
/// last call completes the image or fails. So a creation takes four replies
/// at most.
pub proof fn lemma_creation_progresses<'a>(
    creation: AttachmentImageCreation<'a>,
    reply: DriverReply,
    progress: Progress<'a>,
)
    requires
        creation.advances_to(reply, progress),
    ensures
        progress matches Progress::Continue(next) ==> next.stage().remaining_calls() + 1
            == creation.stage().remaining_calls(),
        creation.stage().remaining_calls() == 1 ==> !(progress is Continue),
{
}

/// A creation whose four native calls all succeed yields the image that was
/// planned, made of the native objects that the replies brought.
pub proof fn lemma_four_successes_complete_the_image<'a>(
    creation: AttachmentImageCreation<'a>,
    image: u64,
    requirements: MemoryRequirements,
    memory: MemoryAlloc,
    view: u64,
    after_image: Progress<'a>,
    after_memory: Progress<'a>,
    after_bind: Progress<'a>,
    after_view: Progress<'a>,
)
    requires
        creation.stage() == Stage::AwaitingImage,
        creation.advances_to(DriverReply::ImageCreated(Ok((image, requirements))), after_image),
        after_image matches Progress::Continue(next) ==> next.advances_to(
            DriverReply::MemoryAllocated(Ok(memory)),
            after_memory,
        ),
        after_memory matches Progress::Continue(next) ==> next.advances_to(
            DriverReply::MemoryBound(Ok(())),
            after_bind,
        ),
        after_bind matches Progress::Continue(next) ==> next.advances_to(
            DriverReply::ImageViewCreated(Ok(view)),
            after_view,
        ),
    ensures
        after_view matches Progress::Done(created) && created.plan() == creation.plan()
            && created.image() == image && created.memory() == memory && created.view() == view,
{
}

/// Makes another pointer to the same image with `Arc::clone`. The contract
/// says what the documentation of `Arc::clone` says: the new pointer points
/// to the same allocation, so the image behind it is the image behind
/// `image`.
#[verifier::external_body]
fn share(image: &Arc<AttachmentImage>) -> (shared: Arc<AttachmentImage>)
    ensures
        shared == *image,
{
    Arc::clone(image)
}

impl AttachmentImageAccess {
    /// The image that the access is to.
    pub closed spec fn image_spec(&self) -> &Arc<AttachmentImage> {
        &self.img
    }

    /// Whether the access has tried to lock the image.
    pub closed spec fn already_locked_spec(&self) -> bool {
        self.already_locked
    }

    /// Whether the access is counted in the lock of the image.
    pub closed spec fn counted_spec(&self) -> bool {
        self.counted
    }

    /// What the access remembers of its dealings with the lock of the image.
    pub open spec fn state(&self) -> AccessState {
        AccessState { already_locked: self.already_locked(), counted: self.counted() }
    }

    /// Builds the access to an image. The access has not tried to lock yet
    /// and is not counted.
    pub fn new(image: Arc<AttachmentImage>) -> (access: AttachmentImageAccess)
        ensures
            *access.image() == image,
            !access.already_locked(),
            !access.counted(),
    {
        AttachmentImageAccess { img: image, already_locked: false, counted: false }
    }

    /// Builds the access to an image that remembers what is given. This is
    /// for a caller that keeps what an access remembers in a place of its
    /// own, such as atomics that threads share.
    pub fn from_state(image: Arc<AttachmentImage>, already_locked: bool, counted: bool) -> (access:
        AttachmentImageAccess)
        ensures
            *access.image() == image,
            access.already_locked() == already_locked,
            access.counted() == counted,
    {
        AttachmentImageAccess { img: image, already_locked, counted }
    }

    /// Returns the image that the access is to.
    #[verifier::when_used_as_spec(image_spec)]
    pub fn image(&self) -> (image: &Arc<AttachmentImage>)
        ensures
            image == self.image_spec(),
    {
        &self.img
    }

    /// Returns true if the access has tried to lock the image.
    #[verifier::when_used_as_spec(already_locked_spec)]
    pub fn already_locked(&self) -> (already_locked: bool)
        ensures
            already_locked == self.already_locked_spec(),
    {
        self.already_locked
    }

    /// Returns true if the access is counted in the lock of the image.
    #[verifier::when_used_as_spec(counted_spec)]
    pub fn counted(&self) -> (counted: bool)
        ensures
            counted == self.counted_spec(),
    {
        self.counted
    }

    /// Returns the handle of the native image.
    pub fn inner(&self) -> (image: u64)
        ensures
            image == self.image().image(),
    {
        self.img.image
    }

    /// Returns the handle of the native view of the image.
    pub fn inner_view(&self) -> (view: u64)
        ensures
            view == self.image().view(),
    {
        self.img.view
    }

    /// Returns the layout that the image has when it is used as an
    /// attachment.
    pub fn default_layout(&self) -> (layout: Layout)
        ensures
            layout == self.image().plan().attachment_layout,
            layout == Layout::ColorAttachmentOptimal || layout
                == Layout::DepthStencilAttachmentOptimal,
    {
        self.img.plan().attachment_layout
    }

    /// Returns a key that is equal for two accesses exactly when they
    /// overlap in memory: the handle of the image, whatever range is asked
    /// for.
    pub fn conflict_key(
        &self,
        first_layer: u32,
        num_layers: u32,
        first_mipmap: u32,
        num_mipmaps: u32,
    ) -> (key: u64)
        ensures
            key == self.image().image(),
    {
        self.img.image
    }

    /// Returns the dimensions of the image as those of a view of it.
    pub fn dimensions(&self) -> (dimensions: Dimensions)
        ensures
            dimensions == (Dimensions::Dim2d {
                width: self.image().plan().dimensions.width(),
                height: self.image().plan().dimensions.height(),
            }),
    {
        let dims = self.img.plan.dimensions;
        Dimensions::Dim2d { width: dims.width(), height: dims.height() }
    }

    /// Returns the layout that the image must be in when it is bound as a
    /// storage image.
    pub fn descriptor_set_storage_image_layout(&self) -> (layout: Layout)
        ensures
            layout == Layout::ShaderReadOnlyOptimal,
    {
        Layout::ShaderReadOnlyOptimal
    }

    /// Returns the layout that the image must be in when it is bound as a
    /// combined image sampler.
    pub fn descriptor_set_combined_image_sampler_layout(&self) -> (layout: Layout)
        ensures
            layout == Layout::ShaderReadOnlyOptimal,
    {
        Layout::ShaderReadOnlyOptimal
    }

    /// Returns the layout that the image must be in when it is bound as a
    /// sampled image.
    pub fn descriptor_set_sampled_image_layout(&self) -> (layout: Layout)
        ensures
            layout == Layout::ShaderReadOnlyOptimal,
    {
        Layout::ShaderReadOnlyOptimal
    }

    /// Returns the layout that the image must be in when it is bound as an
    /// input attachment.
    pub fn descriptor_set_input_attachment_layout(&self) -> (layout: Layout)
        ensures
            layout == Layout::ShaderReadOnlyOptimal,
    {
        Layout::ShaderReadOnlyOptimal
    }

    /// Returns the access that this view is a view of: itself.
    pub fn parent(&self) -> (parent: &AttachmentImageAccess)
        ensures
            parent == self,
    {
        self
    }

    /// Returns true: the content of the image is not checked against a
    /// pixel type.
    pub fn matches_format(&self) -> (matches: bool)
        ensures
            matches,
    {
        true
    }

    /// Returns true: the view of the image reads its components in their
    /// own order.
    pub fn identity_swizzle(&self) -> (identity: bool)
        ensures
            identity,
    {
        true
    }

    /// Tries to lock the image for a use on the GPU, against the counter
    /// `lock` of the image. Returns true if the lock was granted.
    ///
    /// The lock is granted if this access has not tried before and nothing
    /// holds the image; the access is counted from then on. Whatever the
    /// outcome, the access has tried from now on. A refused attempt changes
    /// neither the counter nor whether the access is counted.
    pub fn try_gpu_lock(&mut self, lock: &mut GpuLock) -> (locked: bool)
        ensures
            locked == lock_granted(old(self).already_locked(), old(lock).count() as nat),
            final(lock).count() == count_after_attempt(
                old(self).already_locked(),
                old(lock).count() as nat,
            ),
            final(self).state() == state_after_attempt(old(self).state(), old(lock).count() as nat),
            final(self).counted() == (old(self).counted() || locked),
            final(self).already_locked(),
            final(self).image() == old(self).image(),
    {
        let was_locked = self.already_locked;
        self.already_locked = true;
        if was_locked == true {
            return false;
        }
        let locked = lock.try_lock();
        if locked {
            self.counted = true;
        }
        locked
    }

    /// Makes the access one more user of the image: the access is counted
    /// afterwards. An access that is counted already is not counted again.
    pub fn increase_gpu_lock(&mut self, lock: &mut GpuLock)
        requires
            !old(self).counted() ==> old(lock).count() < usize::MAX,
        ensures
            final(lock).count() == count_after_increase(
                old(self).counted(),
                old(lock).count() as nat,
            ),
            final(self).counted(),
            final(self).already_locked() == old(self).already_locked(),
            final(self).image() == old(self).image(),
    {
        if !self.counted {
            lock.increase();
            self.counted = true;
        }
    }

    /// Ends the access. If the access is counted, it is taken off the
    /// counter of the image; an access that is not counted leaves the
    /// counter as it is.
    pub fn release(self, lock: &mut GpuLock)
        requires
            self.counted() ==> old(lock).count() >= 1,
        ensures
            final(lock).count() == count_after_release(self.counted(), old(lock).count() as nat),
    {
        if self.counted {
            lock.release();
        }
    }
}

impl Clone for AttachmentImageAccess {
    /// The clone is an access to the same image that has tried to lock if
    /// and only if `self` has. The clone is not counted: it has put nothing
    /// on the counter of the image.
    fn clone(&self) -> (access: AttachmentImageAccess)
        ensures
            access.image() == self.image(),
            access.state() == state_of_clone(self.state()),
            access.already_locked() == self.already_locked(),
            !access.counted(),
    {
        AttachmentImageAccess {
            img: share(&self.img),
            already_locked: self.already_locked,
            counted: false,
        }
    }
}

} // verus!
