//! View of a buffer, in order to use it as a uniform texel buffer or storage
//! texel buffer.
//!
//! A view tells the GPU in which format the data of a buffer is to be read.
//! The buffer must have been created with the `uniform_texel_buffer` or the
//! `storage_texel_buffer` usage.
//!
//! Creation takes two calls around the native one. [`BufferView::new`] checks
//! the parameters against what the device advertises and returns a
//! [`PendingBufferView`]; its creation parameters go to the driver, and
//! [`PendingBufferView::finish`] turns the driver's answer into the view or
//! into the error.
use crate::buffer::Buffer;
use crate::device::DeviceId;
use crate::device::DeviceOwned;
use crate::device::Limits;
use crate::error::Error;
use crate::error::OomError;
use crate::format::Format;
use crate::format::FORMAT_FEATURE_STORAGE_TEXEL_BUFFER_ATOMIC_BIT;
use crate::format::FORMAT_FEATURE_STORAGE_TEXEL_BUFFER_BIT;
use crate::format::FORMAT_FEATURE_UNIFORM_TEXEL_BUFFER_BIT;
use std::sync::Arc;
use vstd::prelude::*;

verus! {

/// Error that can happen when creating a buffer view.
#[derive(Debug, Clone, Copy, PartialEq, Eq, Structural)]
pub enum BufferViewCreationError {
    /// Out of memory.
    OomError(OomError),
    /// The buffer was not created with one of the `storage_texel_buffer` or
    /// `uniform_texel_buffer` usages.
    WrongBufferUsage,
    /// The requested format is not supported for this usage.
    UnsupportedFormat,
    /// The maximum number of elements in the buffer view has been exceeded.
    MaxTexelBufferElementsExceeded,
}

/// Parameters of the native call that creates a buffer view.
#[derive(Debug, Clone, Copy, PartialEq, Eq, Structural)]
pub struct BufferViewCreateInfo {
    /// Handle of the native buffer.
    pub buffer: u64,
    /// Native code of the format.
    pub format: u32,
    /// Offset in bytes of the viewed range.
    pub offset: u64,
    /// Size in bytes of the viewed range.
    pub range: u64,
}

/// Number of whole texels of `texel_size` bytes in `size` bytes.
pub open spec fn texel_count(size: usize, texel_size: usize) -> int {
    size as int / texel_size as int
}

/// Whether the feature mask of a format covers every texel usage that the
/// buffer declares.
pub open spec fn features_cover_usage(buffer: Buffer, format_features: u32) -> bool {
    &&& buffer.usage.uniform_texel_buffer ==> format_features
        & FORMAT_FEATURE_UNIFORM_TEXEL_BUFFER_BIT != 0
    &&& buffer.usage.storage_texel_buffer ==> format_features
        & FORMAT_FEATURE_STORAGE_TEXEL_BUFFER_BIT != 0
}

/// The outcome of validating a view of `buffer` in `format`: the first check
/// that fails decides, in the order usage, element count, format features.
pub open spec fn validation_outcome(
    buffer: Buffer,
    format: Format,
    limits: Limits,
    format_features: u32,
) -> Result<BufferViewCreateInfo, BufferViewCreationError>
    recommends
        buffer.usage.uniform_texel_buffer || buffer.usage.storage_texel_buffer
            ==> format.size() is Some,
{
    if !buffer.usage.uniform_texel_buffer && !buffer.usage.storage_texel_buffer {
        Err(BufferViewCreationError::WrongBufferUsage)
    } else if texel_count(buffer.size, format.size().unwrap())
        > limits.max_texel_buffer_elements {
        Err(BufferViewCreationError::MaxTexelBufferElementsExceeded)
    } else if !features_cover_usage(buffer, format_features) {
        Err(BufferViewCreationError::UnsupportedFormat)
    } else {
        Ok(
            (BufferViewCreateInfo {
                buffer: buffer.handle,
                format: format.code(),
                offset: buffer.offset as u64,
                range: buffer.size as u64,
            }),
        )
    }
}

/// A buffer view whose parameters passed every check and whose native object
/// has not been created yet.
#[derive(Debug, PartialEq, Eq)]
pub struct PendingBufferView {
    buffer: Buffer,
    format: Format,
    format_features: u32,
}

/// Represents a way for the GPU to interpret buffer data.
///
/// The buffer of a view declares at least one of the two texel usages, and
/// the device supports the format of the view for every texel usage that the
/// buffer declares. This is checked when the view is created and holds for
/// as long as the view lives.
#[derive(Debug, PartialEq, Eq)]
pub struct BufferView {
    view: u64,
    buffer: Buffer,
    format: Format,
    format_features: u32,
}

/// Whether a format with the given features can be viewed through `buffer`:
/// the buffer declares a texel usage, and the features cover every texel
/// usage that it declares.
pub open spec fn is_viewable(buffer: Buffer, format: Format, format_features: u32) -> bool {
    &&& buffer.usage.uniform_texel_buffer || buffer.usage.storage_texel_buffer
    &&& features_cover_usage(buffer, format_features)
    &&& format.size() is Some
}

impl PendingBufferView {
    #[verifier::type_invariant]
    spec fn well_formed(&self) -> bool {
        is_viewable(self.buffer, self.format, self.format_features)
    }

    pub closed spec fn buffer_spec(&self) -> Buffer {
        self.buffer
    }

    pub closed spec fn format_spec(&self) -> Format {
        self.format
    }

    pub closed spec fn format_features_spec(&self) -> u32 {
        self.format_features
    }

    /// Parameters of the native creation call: the viewed range of the
    /// buffer and the code of the format.
    pub open spec fn create_info_spec(&self) -> BufferViewCreateInfo {
        BufferViewCreateInfo {
            buffer: self.buffer().handle,
            format: self.format().code(),
            offset: self.buffer().offset as u64,
            range: self.buffer().size as u64,
        }
    }

    /// Whether this is the pending view of `buffer` in `format` on a device
    /// that reports `format_features` for the format.
    pub open spec fn is_for(&self, buffer: Buffer, format: Format, format_features: u32) -> bool {
        &&& self.buffer() == buffer
        &&& self.format() == format
        &&& self.format_features() == format_features
    }

    /// Whether `view` is what the creation call makes of this pending view
    /// when the driver answers with `handle`.
    pub open spec fn creates(&self, handle: u64, view: BufferView) -> bool {
        &&& view.internal_object() == handle
        &&& *view.buffer() == self.buffer()
        &&& view.format() == self.format()
        &&& view.format_features() == self.format_features()
    }

    /// Returns the buffer that the view will be made over.
    #[verifier::when_used_as_spec(buffer_spec)]
    pub fn buffer(&self) -> (buffer: Buffer)
        ensures
            buffer == self.buffer_spec(),
    {
        self.buffer
    }

    /// Returns the format of the view.
    #[verifier::when_used_as_spec(format_spec)]
    pub fn format(&self) -> (format: Format)
        ensures
            format == self.format_spec(),
    {
        self.format
    }

    /// Returns the feature mask that the device reported for the format.
    #[verifier::when_used_as_spec(format_features_spec)]
    pub fn format_features(&self) -> (features: u32)
        ensures
            features == self.format_features_spec(),
            is_viewable(self.buffer(), self.format(), features),
    {
        proof {
            use_type_invariant(self);
        }
        self.format_features
    }

    /// Returns the parameters of the native creation call.
    #[verifier::when_used_as_spec(create_info_spec)]
    pub fn create_info(&self) -> (info: BufferViewCreateInfo)
        ensures
            info == self.create_info_spec(),
    {
        BufferViewCreateInfo {
            buffer: self.buffer.handle,
            format: self.format.code(),
            offset: self.buffer.offset as u64,
            range: self.buffer.size as u64,
        }
    }

    /// Completes the creation with the driver's answer to the creation call:
    /// the handle of the new native view, or the failure.
    ///
    /// Every failure of the native call comes out as an out-of-memory error
    /// and leaves no view behind.
    pub fn finish(self, native: Result<u64, Error>) -> (result: Result<
        Arc<BufferView>,
        BufferViewCreationError,
    >)
        ensures
            match native {
                Ok(handle) => result matches Ok(view) && self.creates(handle, *view),
                Err(err) => result matches Err(failure) && failure
                    == BufferViewCreationError::OomError(OomError::for_failure(err)),
            },
    {
        proof {
            use_type_invariant(&self);
        }
        match native {
            Ok(handle) => Ok(
                Arc::new(
                    BufferView {
                        view: handle,
                        buffer: self.buffer,
                        format: self.format,
                        format_features: self.format_features,
                    },
                ),
            ),
            Err(err) => Err(BufferViewCreationError::from_error(err)),
        }
    }
}

impl BufferView {
    #[verifier::type_invariant]
    spec fn well_formed(&self) -> bool {
        is_viewable(self.buffer, self.format, self.format_features)
    }

    pub closed spec fn buffer_spec(&self) -> &Buffer {
        &self.buffer
    }

    pub closed spec fn format_features_spec(&self) -> u32 {
        self.format_features
    }

    pub closed spec fn format_spec(&self) -> Format {
        self.format
    }

    pub closed spec fn internal_object_spec(&self) -> u64 {
        self.view
    }

    /// Whether the format of the view supports atomic accesses on storage
    /// texel buffers.
    pub open spec fn atomic_accesses(&self) -> bool {
        self.format_features() & FORMAT_FEATURE_STORAGE_TEXEL_BUFFER_ATOMIC_BIT != 0
    }

    pub open spec fn uniform_texel_buffer_spec(&self) -> bool {
        self.buffer().usage.uniform_texel_buffer
    }

    pub open spec fn storage_texel_buffer_spec(&self) -> bool {
        self.buffer().usage.storage_texel_buffer
    }

    pub open spec fn storage_texel_buffer_atomic_spec(&self) -> bool {
        self.atomic_accesses() && self.storage_texel_buffer()
    }

    /// Checks the parameters of a new buffer view whose format is known to
    /// match the content of the buffer: the buffer holds a whole number of
    /// texels of the format.
    ///
    /// `limits` and `format_features` are what the device that owns the
    /// buffer reports: its limits, and the buffer features of `format`.
    pub fn new(buffer: Buffer, format: Format, limits: &Limits, format_features: u32) -> (result:
        Result<PendingBufferView, BufferViewCreationError>)
        requires
            format.size() matches Some(texel) && buffer.size % texel == 0,
        ensures
            match validation_outcome(buffer, format, *limits, format_features) {
                Ok(info) => result matches Ok(pending) && pending.create_info() == info
                    && pending.is_for(buffer, format, format_features),
                Err(failure) => result == Err::<PendingBufferView, _>(failure),
            },
    {
        BufferView::unchecked(buffer, format, limits, format_features)
    }

    /// Checks the parameters of a new buffer view without knowing that the
    /// format matches the content of the buffer.
    ///
    /// The checks are those of `new`, in the same order: the usage of the
    /// buffer, the number of texels against the limit of the device, and the
    /// features of the format against each declared usage.
    ///
    /// A block-compressed format has no texels to count: it must not be
    /// given for a buffer that passes the first check.
    pub fn unchecked(
        buffer: Buffer,
        format: Format,
        limits: &Limits,
        format_features: u32,
    ) -> (result: Result<PendingBufferView, BufferViewCreationError>)
        requires
            buffer.usage.uniform_texel_buffer || buffer.usage.storage_texel_buffer
                ==> format.size() is Some,
        ensures
            match validation_outcome(buffer, format, *limits, format_features) {
                Ok(info) => result matches Ok(pending) && pending.create_info() == info
                    && pending.is_for(buffer, format, format_features),
                Err(failure) => result == Err::<PendingBufferView, _>(failure),
            },
    {
        if !buffer.usage.uniform_texel_buffer && !buffer.usage.storage_texel_buffer {
            return Err(BufferViewCreationError::WrongBufferUsage);
        }
        let texel_size = match format.size() {
            Some(bytes) => bytes,
            None => unreached(),
        };
        let nb = buffer.size / texel_size;
        let l = limits.max_texel_buffer_elements;
        if nb > l as usize {
            return Err(BufferViewCreationError::MaxTexelBufferElementsExceeded);
        }
        if buffer.usage.uniform_texel_buffer {
            if (format_features & FORMAT_FEATURE_UNIFORM_TEXEL_BUFFER_BIT) == 0 {
                return Err(BufferViewCreationError::UnsupportedFormat);
            }
        }
        if buffer.usage.storage_texel_buffer {
            if (format_features & FORMAT_FEATURE_STORAGE_TEXEL_BUFFER_BIT) == 0 {
                return Err(BufferViewCreationError::UnsupportedFormat);
            }
        }
        Ok(PendingBufferView { buffer, format, format_features })
    }

    /// Returns the buffer associated to this view.
    #[verifier::when_used_as_spec(buffer_spec)]
    pub fn buffer(&self) -> (buffer: &Buffer)
        ensures
            buffer == self.buffer_spec(),
            buffer.usage.uniform_texel_buffer || buffer.usage.storage_texel_buffer,
    {
        proof {
            use_type_invariant(self);
        }
        &self.buffer
    }

    /// Returns the format that the view reads the buffer in.
    #[verifier::when_used_as_spec(format_spec)]
    pub fn format(&self) -> (format: Format)
        ensures
            format == self.format_spec(),
            format.size() is Some,
    {
        proof {
            use_type_invariant(self);
        }
        self.format
    }

    /// Returns the buffer features that the device reported for the format
    /// when the view was created. They cover every texel usage of the buffer.
    #[verifier::when_used_as_spec(format_features_spec)]
    pub fn format_features(&self) -> (features: u32)
        ensures
            features == self.format_features_spec(),
            is_viewable(*self.buffer(), self.format(), features),
    {
        proof {
            use_type_invariant(self);
        }
        self.format_features
    }

    /// Returns the handle of the native view object.
    #[verifier::when_used_as_spec(internal_object_spec)]
    pub fn internal_object(&self) -> (handle: u64)
        ensures
            handle == self.internal_object_spec(),
    {
        self.view
    }

    /// Returns true if the buffer view can be used as a uniform texel buffer.
    #[verifier::when_used_as_spec(uniform_texel_buffer_spec)]
    pub fn uniform_texel_buffer(&self) -> (allowed: bool)
        ensures
            allowed == self.uniform_texel_buffer_spec(),
    {
        self.buffer.usage.uniform_texel_buffer
    }

    /// Returns true if the buffer view can be used as a storage texel buffer.
    #[verifier::when_used_as_spec(storage_texel_buffer_spec)]
    pub fn storage_texel_buffer(&self) -> (allowed: bool)
        ensures
            allowed == self.storage_texel_buffer_spec(),
    {
        self.buffer.usage.storage_texel_buffer
    }

    /// Returns true if the buffer view can be used as a storage texel buffer
    /// with atomic accesses.
    #[verifier::when_used_as_spec(storage_texel_buffer_atomic_spec)]
    pub fn storage_texel_buffer_atomic(&self) -> (allowed: bool)
        ensures
            allowed == self.storage_texel_buffer_atomic_spec(),
    {
        (self.format_features & FORMAT_FEATURE_STORAGE_TEXEL_BUFFER_ATOMIC_BIT) != 0
            && self.storage_texel_buffer()
    }
}

impl DeviceOwned for BufferView {
    /// A view belongs to the device of its buffer.
    open spec fn device_spec(&self) -> DeviceId {
        self.buffer().device
    }

    fn device(&self) -> (device: DeviceId) {
        self.buffer.device
    }
}

/// Types from which a buffer view can be borrowed: a view itself, or a shared
/// pointer to one.
pub trait BufferViewRef {
    /// The view that `view` borrows.
    spec fn view_spec(&self) -> BufferView;

    /// Borrows the buffer view.
    fn view(&self) -> (view: &BufferView)
        ensures
            *view == self.view_spec(),
    ;
}

impl BufferViewRef for BufferView {
    open spec fn view_spec(&self) -> BufferView {
        *self
    }

    fn view(&self) -> (view: &BufferView) {
        self
    }
}

impl BufferViewRef for Arc<BufferView> {
    open spec fn view_spec(&self) -> BufferView {
        **self
    }

    fn view(&self) -> (view: &BufferView) {
        &**self
    }
}

impl BufferViewCreationError {
    /// Text of `description`.
    pub open spec fn description_spec(&self) -> Seq<char> {
        match self {
            BufferViewCreationError::OomError(_) => "out of memory when creating buffer view"@,
            BufferViewCreationError::WrongBufferUsage => "the buffer is missing correct usage flags"@,
            BufferViewCreationError::UnsupportedFormat => "the requested format is not supported for this usage"@,
            BufferViewCreationError::MaxTexelBufferElementsExceeded => "the maximum number of texel elements is exceeded"@,
        }
    }

    /// The memory error behind this error, if there is one.
    pub open spec fn cause_spec(&self) -> Option<OomError> {
        match self {
            BufferViewCreationError::OomError(err) => Some(*err),
            _ => None,
        }
    }

    /// Converts a failure of the native creation call: whatever the driver
    /// reports, the view was not created for want of memory.
    pub fn from_error(err: Error) -> (converted: BufferViewCreationError)
        ensures
            converted == BufferViewCreationError::OomError(OomError::for_failure(err)),
            OomError::of(err) matches Some(oom) ==> converted
                == BufferViewCreationError::OomError(oom),
    {
        BufferViewCreationError::OomError(OomError::for_failure(err))
    }

    /// Returns a short description of the error.
    pub fn description(&self) -> (text: &'static str)
        ensures
            text@ == self.description_spec(),
    {
        match self {
            BufferViewCreationError::OomError(_) => "out of memory when creating buffer view",
            BufferViewCreationError::WrongBufferUsage => "the buffer is missing correct usage flags",
            BufferViewCreationError::UnsupportedFormat => "the requested format is not supported for this usage",
            BufferViewCreationError::MaxTexelBufferElementsExceeded => "the maximum number of texel elements is exceeded",
        }
    }

    /// Returns the lower-level error that caused this one, if any.
    #[verifier::when_used_as_spec(cause_spec)]
    pub fn cause(&self) -> (cause: Option<OomError>)
        ensures
            cause == self.cause_spec(),
    {
        match self {
            BufferViewCreationError::OomError(err) => Some(*err),
            _ => None,
        }
    }

    /// Returns the text that the error is displayed with: its description.
    pub fn to_string(&self) -> (text: String)
        ensures
            text@ == self.description_spec(),
    {
        self.description().to_owned()
    }
}

impl From<OomError> for BufferViewCreationError {
    fn from(err: OomError) -> (converted: BufferViewCreationError) {
        BufferViewCreationError::OomError(err)
    }
}

impl vstd::std_specs::convert::FromSpecImpl<OomError> for BufferViewCreationError {
    open spec fn obeys_from_spec() -> bool {
        true
    }

    open spec fn from_spec(err: OomError) -> BufferViewCreationError {
        BufferViewCreationError::OomError(err)
    }
}

/// A buffer that declares neither texel usage is refused, whatever the format
/// and whatever the device reports.
pub proof fn lemma_undeclared_usage_is_refused(
    buffer: Buffer,
    format: Format,
    limits: Limits,
    format_features: u32,
)
    requires
        !buffer.usage.uniform_texel_buffer,
        !buffer.usage.storage_texel_buffer,
    ensures
        validation_outcome(buffer, format, limits, format_features) == Err::<
            BufferViewCreateInfo,
            _,
        >(BufferViewCreationError::WrongBufferUsage),
{
}

/// Where the buffer declares a texel usage, holds no more texels than the
/// device allows, and the device reports the feature of every declared usage,
/// validation passes; and the view that a successful native call then yields
/// answers each usage query as the buffer declares it.
pub proof fn lemma_supported_format_is_accepted(
    buffer: Buffer,
    format: Format,
    limits: Limits,
    format_features: u32,
    pending: PendingBufferView,
    handle: u64,
    view: BufferView,
)
    requires
        format.size() matches Some(texel) && texel_count(buffer.size, texel)
            <= limits.max_texel_buffer_elements,
        buffer.usage.uniform_texel_buffer || buffer.usage.storage_texel_buffer,
        features_cover_usage(buffer, format_features),
        pending.is_for(buffer, format, format_features),
        pending.creates(handle, view),
    ensures
        validation_outcome(buffer, format, limits, format_features) == Ok::<
            _,
            BufferViewCreationError,
        >(pending.create_info()),
        view.uniform_texel_buffer() == buffer.usage.uniform_texel_buffer,
        view.storage_texel_buffer() == buffer.usage.storage_texel_buffer,
        view.uniform_texel_buffer() || view.storage_texel_buffer(),
        view.storage_texel_buffer_atomic() == (buffer.usage.storage_texel_buffer && format_features
            & FORMAT_FEATURE_STORAGE_TEXEL_BUFFER_ATOMIC_BIT != 0),
{
}

/// Where the device does not report the feature of a usage that the buffer
/// declares, a buffer within the element limit is refused as an unsupported
/// format.
pub proof fn lemma_missing_feature_is_refused(
    buffer: Buffer,
    format: Format,
    limits: Limits,
    format_features: u32,
)
    requires
        format.size() matches Some(texel) && texel_count(buffer.size, texel)
            <= limits.max_texel_buffer_elements,
        (buffer.usage.uniform_texel_buffer && format_features
            & FORMAT_FEATURE_UNIFORM_TEXEL_BUFFER_BIT == 0) || (buffer.usage.storage_texel_buffer
            && format_features & FORMAT_FEATURE_STORAGE_TEXEL_BUFFER_BIT == 0),
    ensures
        validation_outcome(buffer, format, limits, format_features) == Err::<
            BufferViewCreateInfo,
            _,
        >(BufferViewCreationError::UnsupportedFormat),
{
}

/// The element limit is inclusive: a buffer with a declared texel usage is
/// refused for its element count exactly when it holds more texels than the
/// device allows, so a buffer of exactly the maximum passes this check.
pub proof fn lemma_element_limit_is_inclusive(
    buffer: Buffer,
    format: Format,
    limits: Limits,
    format_features: u32,
)
    requires
        format.size() is Some,
        buffer.usage.uniform_texel_buffer || buffer.usage.storage_texel_buffer,
    ensures
        validation_outcome(buffer, format, limits, format_features) == Err::<
            BufferViewCreateInfo,
            _,
        >(BufferViewCreationError::MaxTexelBufferElementsExceeded) <==> texel_count(
            buffer.size,
            format.size().unwrap(),
        ) > limits.max_texel_buffer_elements,
        texel_count(buffer.size, format.size().unwrap()) == limits.max_texel_buffer_elements
            && features_cover_usage(buffer, format_features) ==> validation_outcome(
            buffer,
            format,
            limits,
            format_features,
        ) is Ok,
{
}

} // verus!
