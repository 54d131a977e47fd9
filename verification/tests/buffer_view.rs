use std::sync::Arc;
use vulkano::buffer::view::BufferView;
use vulkano::buffer::view::BufferViewCreateInfo;
use vulkano::buffer::view::BufferViewCreationError;
use vulkano::buffer::view::BufferViewRef;
use vulkano::buffer::Buffer;
use vulkano::buffer::Usage;
use vulkano::device::DeviceId;
use vulkano::device::DeviceOwned;
use vulkano::device::Limits;
use vulkano::error::Error;
use vulkano::error::OomError;
use vulkano::format::Format;
use vulkano::format::FormatTy;
use vulkano::format::FORMAT_FEATURE_STORAGE_TEXEL_BUFFER_ATOMIC_BIT;
use vulkano::format::FORMAT_FEATURE_STORAGE_TEXEL_BUFFER_BIT;
use vulkano::format::FORMAT_FEATURE_UNIFORM_TEXEL_BUFFER_BIT;

const TEXEL_FEATURES: u32 =
    FORMAT_FEATURE_UNIFORM_TEXEL_BUFFER_BIT | FORMAT_FEATURE_STORAGE_TEXEL_BUFFER_BIT;

fn r8g8b8a8_unorm() -> Format {
    Format::new(37, FormatTy::Float, Some(4)).unwrap()
}

fn r32_uint() -> Format {
    Format::new(98, FormatTy::Uint, Some(4)).unwrap()
}

fn r64g64b64a64_sfloat() -> Format {
    Format::new(121, FormatTy::Float, Some(32)).unwrap()
}

fn limits() -> Limits {
    Limits { max_texel_buffer_elements: 65536 }
}

/// A buffer of `len` elements of `element_size` bytes each.
fn array(len: usize, element_size: usize, usage: Usage) -> Buffer {
    Buffer { handle: 0xb0f, device: DeviceId(1), offset: 0, size: len * element_size, usage }
}

#[test]
fn create_uniform() {
    // `VK_FORMAT_R8G8B8A8_UNORM` guaranteed to be a supported format
    let usage = Usage { uniform_texel_buffer: true, ..Usage::none() };

    let buffer = array(128, 4, usage);
    let view = BufferView::new(buffer, r8g8b8a8_unorm(), &limits(), TEXEL_FEATURES)
        .unwrap()
        .finish(Ok(1))
        .unwrap();

    assert!(view.uniform_texel_buffer());
}

#[test]
fn create_storage() {
    // `VK_FORMAT_R8G8B8A8_UNORM` guaranteed to be a supported format
    let usage = Usage { storage_texel_buffer: true, ..Usage::none() };

    let buffer = array(128, 4, usage);
    let view = BufferView::new(buffer, r8g8b8a8_unorm(), &limits(), TEXEL_FEATURES)
        .unwrap()
        .finish(Ok(1))
        .unwrap();

    assert!(view.storage_texel_buffer());
}

#[test]
fn create_storage_atomic() {
    // `VK_FORMAT_R32_UINT` guaranteed to be a supported format for atomics
    let usage = Usage { storage_texel_buffer: true, ..Usage::none() };

    let buffer = array(128, 4, usage);
    let features = TEXEL_FEATURES | FORMAT_FEATURE_STORAGE_TEXEL_BUFFER_ATOMIC_BIT;
    let view =
        BufferView::new(buffer, r32_uint(), &limits(), features).unwrap().finish(Ok(1)).unwrap();

    assert!(view.storage_texel_buffer());
    assert!(view.storage_texel_buffer_atomic());
}

#[test]
fn wrong_usage() {
    // `VK_FORMAT_R8G8B8A8_UNORM` guaranteed to be a supported format
    let buffer = array(128, 4, Usage::none());

    match BufferView::new(buffer, r8g8b8a8_unorm(), &limits(), TEXEL_FEATURES) {
        Err(BufferViewCreationError::WrongBufferUsage) => (),
        _ => panic!(),
    }
}

#[test]
fn unsupported_format() {
    let usage = Usage { uniform_texel_buffer: true, storage_texel_buffer: true, ..Usage::none() };

    let buffer = array(128, 32, usage);

    match BufferView::new(buffer, r64g64b64a64_sfloat(), &limits(), 0) {
        Err(BufferViewCreationError::UnsupportedFormat) => (),
        _ => panic!(),
    }
}

#[test]
fn wrong_usage_whatever_the_format() {
    let mut other = Usage::none();
    other.vertex_buffer = true;
    other.uniform_buffer = true;
    other.storage_buffer = true;
    for format in [r8g8b8a8_unorm(), r32_uint(), r64g64b64a64_sfloat()] {
        for features in [0, TEXEL_FEATURES, u32::MAX] {
            for usage in [Usage::none(), other] {
                let buffer = array(128, 32, usage);
                assert_eq!(
                    BufferView::unchecked(buffer, format, &limits(), features),
                    Err(BufferViewCreationError::WrongBufferUsage)
                );
            }
        }
    }
}

#[test]
fn wrong_usage_even_with_a_compressed_format() {
    let compressed = Format::new(131, FormatTy::Compressed, None).unwrap();
    assert_eq!(
        BufferView::unchecked(array(128, 4, Usage::none()), compressed, &limits(), u32::MAX),
        Err(BufferViewCreationError::WrongBufferUsage)
    );
}

#[test]
fn wrong_usage_comes_before_the_element_limit() {
    let buffer = array(70000, 4, Usage::none());
    assert_eq!(
        BufferView::unchecked(buffer, r8g8b8a8_unorm(), &limits(), 0),
        Err(BufferViewCreationError::WrongBufferUsage)
    );
}

#[test]
fn element_limit_comes_before_the_features() {
    let usage = Usage { uniform_texel_buffer: true, ..Usage::none() };
    let buffer = array(65537, 4, usage);
    assert_eq!(
        BufferView::unchecked(buffer, r8g8b8a8_unorm(), &limits(), 0),
        Err(BufferViewCreationError::MaxTexelBufferElementsExceeded)
    );
}

#[test]
fn element_count_at_the_maximum_passes() {
    let usage = Usage { uniform_texel_buffer: true, ..Usage::none() };
    let buffer = array(65536, 4, usage);
    let pending =
        BufferView::new(buffer, r8g8b8a8_unorm(), &limits(), TEXEL_FEATURES).unwrap();
    assert_eq!(
        pending.create_info(),
        BufferViewCreateInfo { buffer: 0xb0f, format: 37, offset: 0, range: 262144 }
    );
}

#[test]
fn element_count_above_the_maximum_fails() {
    let usage = Usage { uniform_texel_buffer: true, ..Usage::none() };
    let buffer = array(65537, 4, usage);
    assert_eq!(
        BufferView::new(buffer, r8g8b8a8_unorm(), &limits(), TEXEL_FEATURES),
        Err(BufferViewCreationError::MaxTexelBufferElementsExceeded)
    );
}

#[test]
fn element_count_rounds_down() {
    // 7 bytes hold one whole texel of 4 bytes.
    let usage = Usage { storage_texel_buffer: true, ..Usage::none() };
    let buffer = Buffer { handle: 1, device: DeviceId(1), offset: 16, size: 7, usage };
    let one = Limits { max_texel_buffer_elements: 1 };
    let pending = BufferView::unchecked(buffer, r32_uint(), &one, TEXEL_FEATURES).unwrap();
    assert_eq!(
        pending.create_info(),
        BufferViewCreateInfo { buffer: 1, format: 98, offset: 16, range: 7 }
    );
    let none = Limits { max_texel_buffer_elements: 0 };
    assert_eq!(
        BufferView::unchecked(buffer, r32_uint(), &none, TEXEL_FEATURES),
        Err(BufferViewCreationError::MaxTexelBufferElementsExceeded)
    );
}

#[test]
fn each_declared_usage_needs_its_feature() {
    let uniform = Usage { uniform_texel_buffer: true, ..Usage::none() };
    let storage = Usage { storage_texel_buffer: true, ..Usage::none() };
    let both = Usage { uniform_texel_buffer: true, storage_texel_buffer: true, ..Usage::none() };
    let format = r8g8b8a8_unorm();
    let check = |usage, features| {
        BufferView::unchecked(array(128, 4, usage), format, &limits(), features).map(|_| ())
    };
    let unsupported = Err(BufferViewCreationError::UnsupportedFormat);

    assert_eq!(check(uniform, FORMAT_FEATURE_UNIFORM_TEXEL_BUFFER_BIT), Ok(()));
    assert_eq!(check(uniform, FORMAT_FEATURE_STORAGE_TEXEL_BUFFER_BIT), unsupported);
    assert_eq!(check(storage, FORMAT_FEATURE_STORAGE_TEXEL_BUFFER_BIT), Ok(()));
    assert_eq!(check(storage, FORMAT_FEATURE_UNIFORM_TEXEL_BUFFER_BIT), unsupported);
    assert_eq!(check(both, TEXEL_FEATURES), Ok(()));
    assert_eq!(check(both, FORMAT_FEATURE_UNIFORM_TEXEL_BUFFER_BIT), unsupported);
    assert_eq!(check(both, FORMAT_FEATURE_STORAGE_TEXEL_BUFFER_BIT), unsupported);
    // The atomic bit alone stands for neither usage.
    assert_eq!(check(storage, FORMAT_FEATURE_STORAGE_TEXEL_BUFFER_ATOMIC_BIT), unsupported);
}

#[test]
fn view_reports_what_it_was_made_of() {
    let usage = Usage { uniform_texel_buffer: true, storage_texel_buffer: true, ..Usage::none() };
    let buffer = Buffer { handle: 5, device: DeviceId(9), offset: 64, size: 256, usage };
    let pending = BufferView::new(buffer, r32_uint(), &limits(), TEXEL_FEATURES).unwrap();
    assert_eq!(pending.buffer(), buffer);
    assert_eq!(pending.format(), r32_uint());
    assert_eq!(pending.format_features(), TEXEL_FEATURES);
    let view = pending.finish(Ok(77)).unwrap();
    assert_eq!(view.internal_object(), 77);
    assert_eq!(*view.buffer(), buffer);
    assert_eq!(view.format(), r32_uint());
    assert_eq!(view.device(), DeviceId(9));
    assert!(view.uniform_texel_buffer());
    assert!(view.storage_texel_buffer());
    // No atomic feature was reported.
    assert!(!view.storage_texel_buffer_atomic());
}

#[test]
fn atomic_accesses_need_the_storage_usage() {
    let usage = Usage { uniform_texel_buffer: true, ..Usage::none() };
    let features = TEXEL_FEATURES | FORMAT_FEATURE_STORAGE_TEXEL_BUFFER_ATOMIC_BIT;
    let view = BufferView::new(array(128, 4, usage), r32_uint(), &limits(), features)
        .unwrap()
        .finish(Ok(1))
        .unwrap();
    assert!(!view.storage_texel_buffer());
    assert!(!view.storage_texel_buffer_atomic());
}

#[test]
fn native_failure_is_out_of_memory() {
    let usage = Usage { uniform_texel_buffer: true, ..Usage::none() };
    let pending = || {
        BufferView::new(array(128, 4, usage), r8g8b8a8_unorm(), &limits(), TEXEL_FEATURES).unwrap()
    };
    assert_eq!(
        pending().finish(Err(Error::OutOfHostMemory)),
        Err(BufferViewCreationError::OomError(OomError::OutOfHostMemory))
    );
    assert_eq!(
        pending().finish(Err(Error::OutOfDeviceMemory)),
        Err(BufferViewCreationError::OomError(OomError::OutOfDeviceMemory))
    );
}

#[test]
fn any_native_failure_is_out_of_memory() {
    let usage = Usage { storage_texel_buffer: true, ..Usage::none() };
    let pending = || {
        BufferView::new(array(128, 4, usage), r8g8b8a8_unorm(), &limits(), TEXEL_FEATURES).unwrap()
    };
    for err in [
        Error::InitializationFailed,
        Error::DeviceLost,
        Error::TooManyObjects,
        Error::FormatNotSupported,
        Error::ValidationFailed,
    ] {
        assert_eq!(
            pending().finish(Err(err)),
            Err(BufferViewCreationError::OomError(OomError::OutOfDeviceMemory))
        );
        assert_eq!(
            BufferViewCreationError::from_error(err),
            BufferViewCreationError::OomError(OomError::OutOfDeviceMemory)
        );
    }
}

#[test]
fn buffer_view_error_texts() {
    let oom = BufferViewCreationError::OomError(OomError::OutOfHostMemory);
    assert_eq!(oom.description(), "out of memory when creating buffer view");
    assert_eq!(
        BufferViewCreationError::WrongBufferUsage.description(),
        "the buffer is missing correct usage flags"
    );
    assert_eq!(
        BufferViewCreationError::UnsupportedFormat.description(),
        "the requested format is not supported for this usage"
    );
    assert_eq!(
        BufferViewCreationError::MaxTexelBufferElementsExceeded.description(),
        "the maximum number of texel elements is exceeded"
    );
    assert_eq!(
        BufferViewCreationError::WrongBufferUsage.to_string(),
        "the buffer is missing correct usage flags"
    );
    assert_eq!(oom.cause(), Some(OomError::OutOfHostMemory));
    assert_eq!(BufferViewCreationError::UnsupportedFormat.cause(), None);
}

#[test]
fn buffer_view_error_conversions() {
    assert_eq!(
        BufferViewCreationError::from(OomError::OutOfDeviceMemory),
        BufferViewCreationError::OomError(OomError::OutOfDeviceMemory)
    );
    assert_eq!(
        BufferViewCreationError::from_error(Error::OutOfHostMemory),
        BufferViewCreationError::OomError(OomError::OutOfHostMemory)
    );
}

#[test]
fn view_is_borrowed_from_itself_and_from_a_shared_pointer() {
    let usage = Usage { uniform_texel_buffer: true, ..Usage::none() };
    let shared: Arc<BufferView> =
        BufferView::new(array(128, 4, usage), r8g8b8a8_unorm(), &limits(), TEXEL_FEATURES)
            .unwrap()
            .finish(Ok(3))
            .unwrap();
    assert_eq!(BufferViewRef::view(&shared).internal_object(), 3);
    assert_eq!(BufferViewRef::view(&*shared).internal_object(), 3);
}

#[test]
fn format_size_must_fit_the_family() {
    assert!(Format::new(37, FormatTy::Float, Some(4)).is_some());
    assert!(Format::new(37, FormatTy::Float, Some(0)).is_none());
    assert!(Format::new(37, FormatTy::Float, None).is_none());
    assert!(Format::new(131, FormatTy::Compressed, None).is_some());
    assert!(Format::new(131, FormatTy::Compressed, Some(8)).is_none());
    let format = Format::new(124, FormatTy::Depth, Some(2)).unwrap();
    assert_eq!(format.code(), 124);
    assert_eq!(format.ty(), FormatTy::Depth);
    assert_eq!(format.size(), Some(2));
}
