//! Images, as far as the creation of an attachment image goes.
use crate::error::OomError;
use vstd::prelude::*;

pub mod attachment;

verus! {

/// Ways in which an image may be used. Declared when the image is created and
/// fixed afterwards.
#[derive(Debug, Clone, Copy, PartialEq, Eq, Structural)]
pub struct Usage {
    pub transfer_source: bool,
    pub transfer_dest: bool,
    pub sampled: bool,
    pub storage: bool,
    pub color_attachment: bool,
    pub depth_stencil_attachment: bool,
    pub transient_attachment: bool,
    pub input_attachment: bool,
}

/// Layout of the memory of an image, which decides what the image can be
/// used for while it is in that layout.
#[derive(Debug, Clone, Copy, PartialEq, Eq, Structural)]
pub enum Layout {
    Undefined,
    General,
    ColorAttachmentOptimal,
    DepthStencilAttachmentOptimal,
    DepthStencilReadOnlyOptimal,
    ShaderReadOnlyOptimal,
    TransferSrcOptimal,
    TransferDstOptimal,
    Preinitialized,
    PresentSrc,
}

/// Dimensions of an image.
#[derive(Debug, Clone, Copy, PartialEq, Eq, Structural)]
pub enum ImageDimensions {
    Dim1d { width: u32, array_layers: u32 },
    Dim2d { width: u32, height: u32, array_layers: u32, cubemap_compatible: bool },
    Dim3d { width: u32, height: u32, depth: u32 },
}

/// Dimensions of an image view.
#[derive(Debug, Clone, Copy, PartialEq, Eq, Structural)]
pub enum Dimensions {
    Dim1d { width: u32 },
    Dim1dArray { width: u32, array_layers: u32 },
    Dim2d { width: u32, height: u32 },
    Dim2dArray { width: u32, height: u32, array_layers: u32 },
    Dim3d { width: u32, height: u32, depth: u32 },
    Cubemap { size: u32 },
    CubemapArray { size: u32, array_layers: u32 },
}

/// Shape of an image view.
#[derive(Debug, Clone, Copy, PartialEq, Eq, Structural)]
pub enum ViewType {
    Dim1d,
    Dim1dArray,
    Dim2d,
    Dim2dArray,
    Dim3d,
    Cubemap,
    CubemapArray,
}

/// Error that can happen when creating an image.
#[derive(Debug, Clone, Copy, PartialEq, Eq, Structural)]
pub enum ImageCreationError {
    /// Not enough memory.
    OomError(OomError),
    /// A wrong number of mipmaps was provided.
    InvalidMipmapsCount,
    /// The requested number of samples is not supported, or is 0.
    UnsupportedSamplesCount,
    /// The dimensions are too large, or one of the dimensions is 0.
    UnsupportedDimensions,
    /// The requested format is not supported by the Vulkan implementation.
    FormatNotSupported,
    /// The format is supported, but at least one of the requested usages is
    /// not supported.
    UnsupportedUsage,
    /// The `shader_storage_image_multisample` feature must be enabled to
    /// create such an image.
    ShaderStorageImageMultisampleFeatureNotEnabled,
}

impl Usage {
    /// The usage with no flag set.
    pub open spec fn none_spec() -> Usage {
        Usage {
            transfer_source: false,
            transfer_dest: false,
            sampled: false,
            storage: false,
            color_attachment: false,
            depth_stencil_attachment: false,
            transient_attachment: false,
            input_attachment: false,
        }
    }

    /// Builds a usage with every flag cleared.
    #[verifier::when_used_as_spec(none_spec)]
    pub fn none() -> (usage: Usage)
        ensures
            usage == Usage::none_spec(),
    {
        Usage {
            transfer_source: false,
            transfer_dest: false,
            sampled: false,
            storage: false,
            color_attachment: false,
            depth_stencil_attachment: false,
            transient_attachment: false,
            input_attachment: false,
        }
    }
}

impl ImageDimensions {
    pub open spec fn width_spec(&self) -> u32 {
        match self {
            ImageDimensions::Dim1d { width, .. } => *width,
            ImageDimensions::Dim2d { width, .. } => *width,
            ImageDimensions::Dim3d { width, .. } => *width,
        }
    }

    pub open spec fn height_spec(&self) -> u32 {
        match self {
            ImageDimensions::Dim1d { .. } => 1,
            ImageDimensions::Dim2d { height, .. } => *height,
            ImageDimensions::Dim3d { height, .. } => *height,
        }
    }

    /// Returns the width of the image.
    #[verifier::when_used_as_spec(width_spec)]
    pub fn width(&self) -> (width: u32)
        ensures
            width == self.width_spec(),
    {
        match self {
            ImageDimensions::Dim1d { width, .. } => *width,
            ImageDimensions::Dim2d { width, .. } => *width,
            ImageDimensions::Dim3d { width, .. } => *width,
        }
    }

    /// Returns the height of the image; a one-dimensional image has a height
    /// of 1.
    #[verifier::when_used_as_spec(height_spec)]
    pub fn height(&self) -> (height: u32)
        ensures
            height == self.height_spec(),
    {
        match self {
            ImageDimensions::Dim1d { .. } => 1,
            ImageDimensions::Dim2d { height, .. } => *height,
            ImageDimensions::Dim3d { height, .. } => *height,
        }
    }
}

impl ImageCreationError {
    /// Text of `description`.
    pub open spec fn description_spec(&self) -> Seq<char> {
        match self {
            ImageCreationError::OomError(_) => "not enough memory available"@,
            ImageCreationError::InvalidMipmapsCount => "a wrong number of mipmaps was provided"@,
            ImageCreationError::UnsupportedSamplesCount => "the requested number of samples is not supported, or is 0"@,
            ImageCreationError::UnsupportedDimensions => "the dimensions are too large, or one of the dimensions is 0"@,
            ImageCreationError::FormatNotSupported => "the requested format is not supported by the Vulkan implementation"@,
            ImageCreationError::UnsupportedUsage => "the format is supported, but at least one of the requested usages is not supported"@,
            ImageCreationError::ShaderStorageImageMultisampleFeatureNotEnabled => "the `shader_storage_image_multisample` feature must be enabled to create such an image"@,
        }
    }

    /// The memory error behind this error, if there is one.
    pub open spec fn cause_spec(&self) -> Option<OomError> {
        match self {
            ImageCreationError::OomError(err) => Some(*err),
            _ => None,
        }
    }

    /// Returns a short description of the error.
    pub fn description(&self) -> (text: &'static str)
        ensures
            text@ == self.description_spec(),
    {
        match self {
            ImageCreationError::OomError(_) => "not enough memory available",
            ImageCreationError::InvalidMipmapsCount => "a wrong number of mipmaps was provided",
            ImageCreationError::UnsupportedSamplesCount => "the requested number of samples is not supported, or is 0",
            ImageCreationError::UnsupportedDimensions => "the dimensions are too large, or one of the dimensions is 0",
            ImageCreationError::FormatNotSupported => "the requested format is not supported by the Vulkan implementation",
            ImageCreationError::UnsupportedUsage => "the format is supported, but at least one of the requested usages is not supported",
            ImageCreationError::ShaderStorageImageMultisampleFeatureNotEnabled => "the `shader_storage_image_multisample` feature must be enabled to create such an image",
        }
    }

    /// Returns the lower-level error that caused this one, if any.
    #[verifier::when_used_as_spec(cause_spec)]
    pub fn cause(&self) -> (cause: Option<OomError>)
        ensures
            cause == self.cause_spec(),
    {
        match self {
            ImageCreationError::OomError(err) => Some(*err),
            _ => None,
        }
    }
}

impl From<OomError> for ImageCreationError {
    fn from(err: OomError) -> (converted: ImageCreationError) {
        ImageCreationError::OomError(err)
    }
}

impl vstd::std_specs::convert::FromSpecImpl<OomError> for ImageCreationError {
    open spec fn obeys_from_spec() -> bool {
        true
    }

    open spec fn from_spec(err: OomError) -> ImageCreationError {
        ImageCreationError::OomError(err)
    }
}

} // verus!
