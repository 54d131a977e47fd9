use std::sync::Arc;
use vulkano::error::OomError;
use vulkano::format::Format;
use vulkano::format::FormatTy;
use vulkano::image::attachment::AttachmentImage;
use vulkano::image::attachment::AttachmentImageAccess;
use vulkano::image::attachment::AttachmentImageCreation;
use vulkano::image::attachment::DriverReply;
use vulkano::image::attachment::DriverRequest;
use vulkano::image::attachment::ImageCreateInfo;
use vulkano::image::attachment::ImageViewCreateInfo;
use vulkano::image::attachment::Progress;
use vulkano::image::attachment::Releases;
use vulkano::image::attachment::Stage;
use vulkano::image::Dimensions;
use vulkano::image::ImageCreationError;
use vulkano::image::ImageDimensions;
use vulkano::image::Layout;
use vulkano::image::Usage;
use vulkano::image::ViewType;
use vulkano::memory::AllocLayout;
use vulkano::memory::MemoryAlloc;
use vulkano::memory::MemoryRequirements;
use vulkano::memory::MemoryType;
use vulkano::sync::GpuLock;

fn r8g8b8a8_unorm() -> Format {
    Format::new(37, FormatTy::Float, Some(4)).unwrap()
}

fn d16_unorm() -> Format {
    Format::new(124, FormatTy::Depth, Some(2)).unwrap()
}

/// Two memory types: host memory first, device-local memory second.
fn memory_types() -> Vec<MemoryType> {
    vec![MemoryType::new(0, false).unwrap(), MemoryType::new(1, true).unwrap()]
}

const REQUIREMENTS: MemoryRequirements =
    MemoryRequirements { size: 4096, alignment: 256, memory_type_bits: 0b11 };

const MEMORY: MemoryAlloc = MemoryAlloc { memory: 0x3e3, offset: 512 };

fn started(progress: Progress<'_>) -> AttachmentImageCreation<'_> {
    match progress {
        Progress::Continue(creation) => creation,
        other => panic!("the creation has not started: {:?}", other),
    }
}

/// Plays the driver: answers every request with success.
fn created(progress: Progress<'_>) -> Arc<AttachmentImage> {
    let mut progress = progress;
    loop {
        let creation = match progress {
            Progress::Continue(creation) => creation,
            Progress::Done(image) => return image,
            Progress::Failed { error, .. } => panic!("{:?}", error),
        };
        let reply = match creation.request() {
            DriverRequest::CreateImage(_) => DriverReply::ImageCreated(Ok((0x1a9e, REQUIREMENTS))),
            DriverRequest::AllocateMemory { .. } => DriverReply::MemoryAllocated(Ok(MEMORY)),
            DriverRequest::BindMemory { .. } => DriverReply::MemoryBound(Ok(())),
            DriverRequest::CreateImageView(_) => DriverReply::ImageViewCreated(Ok(0x71e3)),
        };
        assert!(creation.expects(&reply));
        progress = creation.advance(reply);
    }
}

#[test]
fn create_regular() {
    let memory_types = memory_types();
    let _img = created(AttachmentImage::new(&memory_types, [32, 32], r8g8b8a8_unorm()));
}

#[test]
fn create_transient() {
    let memory_types = memory_types();
    let _img = created(AttachmentImage::transient(&memory_types, [32, 32], r8g8b8a8_unorm()));
}

#[test]
fn d16_unorm_always_supported() {
    let memory_types = memory_types();
    let _img = created(AttachmentImage::new(&memory_types, [32, 32], d16_unorm()));
}

#[test]
fn color_format_plans_a_color_attachment() {
    let memory_types = memory_types();
    let creation = started(AttachmentImage::new(&memory_types, [32, 16], r8g8b8a8_unorm()));
    let plan = creation.plan();
    assert_eq!(plan.format, r8g8b8a8_unorm());
    assert_eq!(
        plan.dimensions,
        ImageDimensions::Dim2d { width: 32, height: 16, array_layers: 1, cubemap_compatible: false }
    );
    assert_eq!(plan.usage, Usage { color_attachment: true, ..Usage::none() });
    assert_eq!(plan.attachment_layout, Layout::ColorAttachmentOptimal);
    assert_eq!(creation.stage(), Stage::AwaitingImage);
}

#[test]
fn depth_and_stencil_formats_plan_a_depth_stencil_attachment() {
    let memory_types = memory_types();
    for ty in [FormatTy::Depth, FormatTy::DepthStencil, FormatTy::Stencil] {
        let format = Format::new(1, ty, Some(4)).unwrap();
        let plan = started(AttachmentImage::new(&memory_types, [8, 8], format)).plan();
        assert_eq!(plan.usage, Usage { depth_stencil_attachment: true, ..Usage::none() });
        assert_eq!(plan.attachment_layout, Layout::DepthStencilAttachmentOptimal);
    }
    for ty in [FormatTy::Float, FormatTy::Uint, FormatTy::Sint] {
        let format = Format::new(1, ty, Some(4)).unwrap();
        let plan = started(AttachmentImage::new(&memory_types, [8, 8], format)).plan();
        assert_eq!(plan.usage, Usage { color_attachment: true, ..Usage::none() });
        assert_eq!(plan.attachment_layout, Layout::ColorAttachmentOptimal);
    }
}

#[test]
fn transient_sets_the_transient_flag() {
    let memory_types = memory_types();
    let plan = started(AttachmentImage::transient(&memory_types, [32, 32], d16_unorm())).plan();
    assert_eq!(
        plan.usage,
        Usage { depth_stencil_attachment: true, transient_attachment: true, ..Usage::none() }
    );
}

#[test]
fn with_usage_keeps_the_other_flags_and_overrides_the_attachment_flags() {
    let memory_types = memory_types();
    let asked = Usage {
        sampled: true,
        transfer_source: true,
        depth_stencil_attachment: true,
        ..Usage::none()
    };
    let plan =
        started(AttachmentImage::with_usage(&memory_types, [32, 32], r8g8b8a8_unorm(), asked))
            .plan();
    assert_eq!(
        plan.usage,
        Usage { sampled: true, transfer_source: true, color_attachment: true, ..Usage::none() }
    );
}

#[test]
fn requests_follow_the_stages() {
    let memory_types = memory_types();
    let creation = started(AttachmentImage::new(&memory_types, [32, 32], r8g8b8a8_unorm()));
    assert_eq!(
        creation.request(),
        DriverRequest::CreateImage(ImageCreateInfo {
            usage: Usage { color_attachment: true, ..Usage::none() },
            format: r8g8b8a8_unorm(),
            dimensions: ImageDimensions::Dim2d {
                width: 32,
                height: 32,
                array_layers: 1,
                cubemap_compatible: false
            },
            samples: 1,
            mipmaps: 1,
            exclusive: true,
            linear_tiling: false,
            preinitialized_layout: false,
        })
    );

    let creation = started(creation.advance(DriverReply::ImageCreated(Ok((7, REQUIREMENTS)))));
    let device_local = MemoryType::new(1, true).unwrap();
    assert_eq!(
        creation.stage(),
        Stage::AwaitingMemory { image: 7, requirements: REQUIREMENTS, memory_type: device_local }
    );
    assert_eq!(
        creation.request(),
        DriverRequest::AllocateMemory {
            memory_type: device_local,
            size: 4096,
            alignment: 256,
            layout: AllocLayout::Optimal
        }
    );

    let creation = started(creation.advance(DriverReply::MemoryAllocated(Ok(MEMORY))));
    assert_eq!(creation.stage(), Stage::AwaitingBind { image: 7, memory: MEMORY });
    assert_eq!(creation.request(), DriverRequest::BindMemory { image: 7, memory: MEMORY });

    let creation = started(creation.advance(DriverReply::MemoryBound(Ok(()))));
    assert_eq!(creation.stage(), Stage::AwaitingView { image: 7, memory: MEMORY });
    assert_eq!(
        creation.request(),
        DriverRequest::CreateImageView(ImageViewCreateInfo {
            image: 7,
            ty: ViewType::Dim2d,
            mipmap_levels: (0, 1),
            array_layers: (0, 1),
        })
    );

    match creation.advance(DriverReply::ImageViewCreated(Ok(9))) {
        Progress::Done(image) => {
            assert_eq!(image.image(), 7);
            assert_eq!(image.view(), 9);
            assert_eq!(image.memory(), MEMORY);
            assert_eq!(image.dimensions(), [32, 32]);
            assert_eq!(image.format(), r8g8b8a8_unorm());
            assert_eq!(image.samples(), 1);
            assert_eq!(image.plan().attachment_layout, Layout::ColorAttachmentOptimal);
        }
        other => panic!("{:?}", other),
    }
}

#[test]
fn failed_image_creation_leaves_nothing_to_release() {
    let memory_types = memory_types();
    let creation = started(AttachmentImage::new(&memory_types, [32, 32], r8g8b8a8_unorm()));
    assert_eq!(
        creation.advance(DriverReply::ImageCreated(Err(ImageCreationError::FormatNotSupported))),
        Progress::Failed {
            error: ImageCreationError::FormatNotSupported,
            release: Releases { memory: None, image: None }
        }
    );
}

#[test]
fn failed_allocation_releases_the_image() {
    let memory_types = memory_types();
    let creation = started(AttachmentImage::new(&memory_types, [32, 32], r8g8b8a8_unorm()));
    let creation = started(creation.advance(DriverReply::ImageCreated(Ok((7, REQUIREMENTS)))));
    assert_eq!(
        creation.advance(DriverReply::MemoryAllocated(Err(OomError::OutOfDeviceMemory))),
        Progress::Failed {
            error: ImageCreationError::OomError(OomError::OutOfDeviceMemory),
            release: Releases { memory: None, image: Some(7) }
        }
    );
}

#[test]
fn failed_binding_releases_the_memory_and_the_image() {
    let memory_types = memory_types();
    let creation = started(AttachmentImage::new(&memory_types, [32, 32], r8g8b8a8_unorm()));
    let creation = started(creation.advance(DriverReply::ImageCreated(Ok((7, REQUIREMENTS)))));
    let creation = started(creation.advance(DriverReply::MemoryAllocated(Ok(MEMORY))));
    assert_eq!(
        creation.advance(DriverReply::MemoryBound(Err(OomError::OutOfHostMemory))),
        Progress::Failed {
            error: ImageCreationError::OomError(OomError::OutOfHostMemory),
            release: Releases { memory: Some(MEMORY), image: Some(7) }
        }
    );
}

#[test]
fn failed_view_releases_the_memory_and_the_image() {
    let memory_types = memory_types();
    let creation = started(AttachmentImage::new(&memory_types, [32, 32], r8g8b8a8_unorm()));
    let creation = started(creation.advance(DriverReply::ImageCreated(Ok((7, REQUIREMENTS)))));
    let creation = started(creation.advance(DriverReply::MemoryAllocated(Ok(MEMORY))));
    let creation = started(creation.advance(DriverReply::MemoryBound(Ok(()))));
    assert_eq!(
        creation.advance(DriverReply::ImageViewCreated(Err(OomError::OutOfHostMemory))),
        Progress::Failed {
            error: ImageCreationError::OomError(OomError::OutOfHostMemory),
            release: Releases { memory: Some(MEMORY), image: Some(7) }
        }
    );
}

#[test]
fn replies_are_expected_by_their_stage_only() {
    let memory_types = memory_types();
    let creation = started(AttachmentImage::new(&memory_types, [32, 32], r8g8b8a8_unorm()));
    assert!(creation.expects(&DriverReply::ImageCreated(Ok((7, REQUIREMENTS)))));
    assert!(creation.expects(&DriverReply::ImageCreated(Err(ImageCreationError::UnsupportedUsage))));
    assert!(!creation.expects(&DriverReply::MemoryAllocated(Ok(MEMORY))));
    assert!(!creation.expects(&DriverReply::MemoryBound(Ok(()))));
    assert!(!creation.expects(&DriverReply::ImageViewCreated(Ok(1))));
    // No memory type of the device suits a mask that names type 2 only.
    let unsuitable = MemoryRequirements { size: 16, alignment: 4, memory_type_bits: 0b100 };
    assert!(!creation.expects(&DriverReply::ImageCreated(Ok((7, unsuitable)))));

    let creation = started(creation.advance(DriverReply::ImageCreated(Ok((7, REQUIREMENTS)))));
    assert!(creation.expects(&DriverReply::MemoryAllocated(Ok(MEMORY))));
    assert!(creation.expects(&DriverReply::MemoryAllocated(Err(OomError::OutOfHostMemory))));
    assert!(!creation.expects(&DriverReply::ImageCreated(Ok((7, REQUIREMENTS)))));
}

#[test]
fn host_memory_is_taken_where_no_device_local_memory_suits() {
    let memory_types = memory_types();
    let creation = started(AttachmentImage::new(&memory_types, [32, 32], r8g8b8a8_unorm()));
    let host_only = MemoryRequirements { size: 16, alignment: 4, memory_type_bits: 0b01 };
    let creation = started(creation.advance(DriverReply::ImageCreated(Ok((7, host_only)))));
    assert_eq!(
        creation.request(),
        DriverRequest::AllocateMemory {
            memory_type: MemoryType::new(0, false).unwrap(),
            size: 16,
            alignment: 4,
            layout: AllocLayout::Optimal
        }
    );
}

#[test]
fn access_reads_the_image() {
    let memory_types = memory_types();
    let image = created(AttachmentImage::new(&memory_types, [32, 24], d16_unorm()));
    let access = AttachmentImageAccess::new(image.clone());
    assert!(!access.already_locked());
    assert_eq!(access.inner(), 0x1a9e);
    assert_eq!(access.inner_view(), 0x71e3);
    assert_eq!(access.conflict_key(0, 1, 0, 1), 0x1a9e);
    assert_eq!(access.conflict_key(3, 2, 1, 5), 0x1a9e);
    assert_eq!(access.default_layout(), Layout::DepthStencilAttachmentOptimal);
    assert_eq!(access.dimensions(), Dimensions::Dim2d { width: 32, height: 24 });
    assert_eq!(access.descriptor_set_storage_image_layout(), Layout::ShaderReadOnlyOptimal);
    assert_eq!(access.descriptor_set_combined_image_sampler_layout(), Layout::ShaderReadOnlyOptimal);
    assert_eq!(access.descriptor_set_sampled_image_layout(), Layout::ShaderReadOnlyOptimal);
    assert_eq!(access.descriptor_set_input_attachment_layout(), Layout::ShaderReadOnlyOptimal);
    assert!(access.identity_swizzle());
    assert!(access.matches_format());
    assert!(Arc::ptr_eq(access.image(), &image));
    assert!(Arc::ptr_eq(access.parent().image(), &image));
    assert_eq!(
        image.image_dimensions(),
        ImageDimensions::Dim2d { width: 32, height: 24, array_layers: 1, cubemap_compatible: false }
    );
}

#[test]
fn second_attempt_on_the_same_access_fails() {
    let memory_types = memory_types();
    let image = created(AttachmentImage::new(&memory_types, [32, 32], r8g8b8a8_unorm()));
    let mut lock = GpuLock::new();
    let mut access = AttachmentImageAccess::new(image);
    assert!(!access.counted());

    assert!(access.try_gpu_lock(&mut lock));
    assert!(access.already_locked());
    assert!(access.counted());
    assert_eq!(lock.count(), 1);
    for _ in 0..5 {
        assert!(!access.try_gpu_lock(&mut lock));
        assert!(access.counted());
        assert_eq!(lock.count(), 1);
    }
    access.release(&mut lock);
    assert_eq!(lock.count(), 0);
}

#[test]
fn second_attempt_fails_even_after_the_image_is_free_again() {
    let memory_types = memory_types();
    let image = created(AttachmentImage::new(&memory_types, [32, 32], r8g8b8a8_unorm()));
    let mut lock = GpuLock::with_count(1);
    let mut access = AttachmentImageAccess::new(image);

    // The image is held by something else: the attempt fails and latches.
    assert!(!access.try_gpu_lock(&mut lock));
    assert!(access.already_locked());
    assert!(!access.counted());
    assert_eq!(lock.count(), 1);
    lock.release();
    assert_eq!(lock.count(), 0);
    assert!(!access.try_gpu_lock(&mut lock));
    assert!(!access.counted());
    assert_eq!(lock.count(), 0);
}

#[test]
fn release_of_a_refused_access_leaves_the_holder_counted() {
    let memory_types = memory_types();
    let image = created(AttachmentImage::new(&memory_types, [32, 32], r8g8b8a8_unorm()));
    let mut lock = GpuLock::new();
    let mut holder = AttachmentImageAccess::new(image.clone());
    assert!(holder.try_gpu_lock(&mut lock));
    assert_eq!(lock.count(), 1);

    let mut refused = AttachmentImageAccess::new(image);
    assert!(!refused.try_gpu_lock(&mut lock));
    assert!(refused.already_locked());
    assert!(!refused.counted());
    refused.release(&mut lock);
    assert_eq!(lock.count(), 1);

    // The holder can still release.
    holder.release(&mut lock);
    assert_eq!(lock.count(), 0);
}

#[test]
fn release_of_an_uncounted_clone_changes_nothing() {
    let memory_types = memory_types();
    let image = created(AttachmentImage::new(&memory_types, [32, 32], r8g8b8a8_unorm()));
    let mut lock = GpuLock::new();
    let mut holder = AttachmentImageAccess::new(image);
    assert!(holder.try_gpu_lock(&mut lock));

    let copy = holder.clone();
    assert!(copy.already_locked());
    assert!(!copy.counted());
    copy.release(&mut lock);
    assert_eq!(lock.count(), 1);
    holder.release(&mut lock);
    assert_eq!(lock.count(), 0);
}

#[test]
fn only_one_access_locks_a_free_image() {
    let memory_types = memory_types();
    let image = created(AttachmentImage::new(&memory_types, [32, 32], r8g8b8a8_unorm()));
    let mut lock = GpuLock::new();
    let mut first = AttachmentImageAccess::new(image.clone());
    let mut second = AttachmentImageAccess::new(image);

    assert!(first.try_gpu_lock(&mut lock));
    assert!(!second.try_gpu_lock(&mut lock));
    assert_eq!(lock.count(), 1);
    assert!(first.counted());
    assert!(!second.counted());
}

#[test]
fn releases_bring_the_counter_back() {
    let memory_types = memory_types();
    let image = created(AttachmentImage::new(&memory_types, [32, 32], r8g8b8a8_unorm()));
    let mut lock = GpuLock::new();
    let mut holder = AttachmentImageAccess::new(image.clone());
    assert!(holder.try_gpu_lock(&mut lock));

    let before = lock.count();
    let mut users = Vec::new();
    for _ in 0..4 {
        let mut user = holder.clone();
        user.increase_gpu_lock(&mut lock);
        assert!(user.counted());
        users.push(user);
    }
    assert_eq!(lock.count(), before + 4);
    for user in users {
        user.release(&mut lock);
    }
    assert_eq!(lock.count(), before);
    holder.release(&mut lock);
    assert_eq!(lock.count(), 0);
}

#[test]
fn an_access_is_counted_once() {
    let memory_types = memory_types();
    let image = created(AttachmentImage::new(&memory_types, [32, 32], r8g8b8a8_unorm()));
    let mut lock = GpuLock::new();
    let mut holder = AttachmentImageAccess::new(image);
    assert!(holder.try_gpu_lock(&mut lock));
    // The holder is counted already: joining again adds nothing.
    holder.increase_gpu_lock(&mut lock);
    holder.increase_gpu_lock(&mut lock);
    assert_eq!(lock.count(), 1);

    let mut user = holder.clone();
    user.increase_gpu_lock(&mut lock);
    user.increase_gpu_lock(&mut lock);
    assert_eq!(lock.count(), 2);
    user.release(&mut lock);
    holder.release(&mut lock);
    assert_eq!(lock.count(), 0);
}

#[test]
fn release_of_an_access_that_never_tried_changes_nothing() {
    let memory_types = memory_types();
    let image = created(AttachmentImage::new(&memory_types, [32, 32], r8g8b8a8_unorm()));
    let mut lock = GpuLock::with_count(3);
    AttachmentImageAccess::new(image).release(&mut lock);
    assert_eq!(lock.count(), 3);
}

#[test]
fn access_is_rebuilt_from_what_it_remembers() {
    let memory_types = memory_types();
    let image = created(AttachmentImage::new(&memory_types, [32, 32], r8g8b8a8_unorm()));
    for already_locked in [false, true] {
        for counted in [false, true] {
            let access = AttachmentImageAccess::from_state(image.clone(), already_locked, counted);
            assert!(Arc::ptr_eq(access.image(), &image));
            assert_eq!(access.already_locked(), already_locked);
            assert_eq!(access.counted(), counted);
            let mut lock = GpuLock::with_count(2);
            access.release(&mut lock);
            assert_eq!(lock.count(), if counted { 1 } else { 2 });
        }
    }
}

#[test]
fn clone_shares_the_image_and_copies_the_latch() {
    let memory_types = memory_types();
    let image = created(AttachmentImage::new(&memory_types, [32, 32], r8g8b8a8_unorm()));
    let mut lock = GpuLock::new();
    let mut access = AttachmentImageAccess::new(image.clone());
    assert_eq!(Arc::strong_count(&image), 2);

    let fresh = access.clone();
    assert!(!fresh.already_locked());
    assert!(!fresh.counted());
    assert!(Arc::ptr_eq(fresh.image(), &image));
    assert_eq!(Arc::strong_count(&image), 3);

    assert!(access.try_gpu_lock(&mut lock));
    let mut latched = access.clone();
    assert!(latched.already_locked());
    assert!(!latched.counted());
    assert!(!latched.try_gpu_lock(&mut lock));
    assert_eq!(lock.count(), 1);
    assert_eq!(Arc::strong_count(&image), 4);
}

#[test]
fn image_error_texts() {
    let texts = [
        (
            ImageCreationError::OomError(OomError::OutOfHostMemory),
            "not enough memory available",
        ),
        (ImageCreationError::InvalidMipmapsCount, "a wrong number of mipmaps was provided"),
        (
            ImageCreationError::UnsupportedSamplesCount,
            "the requested number of samples is not supported, or is 0",
        ),
        (
            ImageCreationError::UnsupportedDimensions,
            "the dimensions are too large, or one of the dimensions is 0",
        ),
        (
            ImageCreationError::FormatNotSupported,
            "the requested format is not supported by the Vulkan implementation",
        ),
        (
            ImageCreationError::UnsupportedUsage,
            "the format is supported, but at least one of the requested usages is not supported",
        ),
        (
            ImageCreationError::ShaderStorageImageMultisampleFeatureNotEnabled,
            "the `shader_storage_image_multisample` feature must be enabled to create such an image",
        ),
    ];
    for (error, text) in texts {
        assert_eq!(error.description(), text);
    }
    assert_eq!(
        ImageCreationError::OomError(OomError::OutOfDeviceMemory).cause(),
        Some(OomError::OutOfDeviceMemory)
    );
    assert_eq!(ImageCreationError::UnsupportedUsage.cause(), None);
    assert_eq!(
        ImageCreationError::from(OomError::OutOfHostMemory),
        ImageCreationError::OomError(OomError::OutOfHostMemory)
    );
}
