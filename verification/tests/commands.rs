use gpu_core::align_to;
use gpu_core::device::{
    queue_configs, required_features, transient_command_pool_config, Device, DeviceProperties,
};
use gpu_core::memory::{
    alloc_memory, scheme_for, Allocation, AllocationLedger, AllocationResource, AllocationScheme,
    MemoryLocation, MemoryRequirements,
};
use gpu_core::negotiate::PhysicalDeviceChoice;
use gpu_core::resources::{
    assemble_buffer, buffer_alloc_request, buffer_create_desc, capture_staging_desc,
    create_2d_view, image_alloc_request, one_time_submit_plan, BufferError,
    BUFFER_USAGE_SHADER_DEVICE_ADDRESS, COMMAND_BUFFER_LEVEL_PRIMARY,
    COMMAND_BUFFER_ONE_TIME_SUBMIT, COMMAND_POOL_TRANSIENT, FORMAT_R8G8B8A8_UNORM,
    IMAGE_TYPE_2D, IMAGE_USAGE_TRANSFER_DST, TILING_LINEAR, TILING_OPTIMAL,
};
use gpu_core::sync::{
    access_for, aspect_for, blit_image, blit_restore_layout, image_transition, stage_for,
    try_access_for, try_stage_for, Extent2d, ImageLayout, ASPECT_COLOR, ASPECT_DEPTH,
    REMAINING_ARRAY_LAYERS, REMAINING_MIP_LEVELS,
};

const ALL_LAYOUTS: [ImageLayout; 10] = [
    ImageLayout::Undefined,
    ImageLayout::Preinitialized,
    ImageLayout::TransferSrcOptimal,
    ImageLayout::TransferDstOptimal,
    ImageLayout::ColorAttachmentOptimal,
    ImageLayout::DepthAttachmentOptimal,
    ImageLayout::ShadingRateAttachmentOptimal,
    ImageLayout::ShaderReadOnlyOptimal,
    ImageLayout::PresentSrc,
    ImageLayout::General,
];

#[test]
fn stage_table_matches_fixed_values() {
    assert_eq!(stage_for(ImageLayout::Undefined), 0x1);
    assert_eq!(stage_for(ImageLayout::Preinitialized), 0x4000);
    assert_eq!(stage_for(ImageLayout::TransferSrcOptimal), 0x1000);
    assert_eq!(stage_for(ImageLayout::TransferDstOptimal), 0x1000);
    assert_eq!(stage_for(ImageLayout::ColorAttachmentOptimal), 0x400);
    assert_eq!(stage_for(ImageLayout::DepthAttachmentOptimal), 0x100 | 0x200);
    assert_eq!(stage_for(ImageLayout::ShadingRateAttachmentOptimal), 0x400000);
    assert_eq!(stage_for(ImageLayout::ShaderReadOnlyOptimal), 0x8 | 0x80);
    assert_eq!(stage_for(ImageLayout::PresentSrc), 0x2000);
    assert_eq!(stage_for(ImageLayout::General), 0x10000);
}

#[test]
fn access_table_matches_fixed_values() {
    assert_eq!(access_for(ImageLayout::Undefined), 0);
    assert_eq!(access_for(ImageLayout::PresentSrc), 0);
    assert_eq!(access_for(ImageLayout::Preinitialized), 0x4000);
    assert_eq!(access_for(ImageLayout::ColorAttachmentOptimal), 0x80 | 0x100);
    assert_eq!(access_for(ImageLayout::DepthAttachmentOptimal), 0x200 | 0x400);
    assert_eq!(access_for(ImageLayout::ShadingRateAttachmentOptimal), 0x800000);
    assert_eq!(access_for(ImageLayout::ShaderReadOnlyOptimal), 0x20 | 0x10);
    assert_eq!(access_for(ImageLayout::TransferSrcOptimal), 0x800);
    assert_eq!(access_for(ImageLayout::TransferDstOptimal), 0x1000);
    assert_eq!(access_for(ImageLayout::General), 0x20 | 0x40);
}

#[test]
fn unrecognized_layout_has_no_table_entry() {
    // A layout outside the enumerated set reaches the fatal path, never a
    // default value.
    for layout in ALL_LAYOUTS {
        assert!(try_stage_for(layout).is_some());
        assert!(try_access_for(layout).is_some());
    }
    assert_eq!(try_stage_for(ImageLayout::Other(1_000_241_001)), None);
    assert_eq!(try_access_for(ImageLayout::Other(-5)), None);
}

#[test]
fn aspect_is_depth_only_around_depth_attachment() {
    assert_eq!(
        aspect_for(ImageLayout::DepthAttachmentOptimal, ImageLayout::General),
        ASPECT_DEPTH
    );
    assert_eq!(
        aspect_for(ImageLayout::General, ImageLayout::DepthAttachmentOptimal),
        ASPECT_DEPTH
    );
    assert_eq!(
        aspect_for(ImageLayout::Undefined, ImageLayout::ColorAttachmentOptimal),
        ASPECT_COLOR
    );
}

#[test]
fn transition_covers_whole_image() {
    let b = image_transition(ImageLayout::Undefined, ImageLayout::ColorAttachmentOptimal);
    assert_eq!(b.src_stage_mask, 0x1);
    assert_eq!(b.dst_stage_mask, 0x400);
    assert_eq!(b.src_access_mask, 0);
    assert_eq!(b.dst_access_mask, 0x80 | 0x100);
    assert_eq!(b.aspect_mask, ASPECT_COLOR);
    assert_eq!(b.base_mip_level, 0);
    assert_eq!(b.level_count, REMAINING_MIP_LEVELS);
    assert_eq!(b.base_array_layer, 0);
    assert_eq!(b.layer_count, REMAINING_ARRAY_LAYERS);
}

#[test]
fn blit_from_present_to_undefined_destination_ends_general() {
    let extent = Extent2d { width: 800, height: 600 };
    let plan = blit_image(extent, ImageLayout::PresentSrc, extent, ImageLayout::Undefined);
    assert_eq!(plan.pre_src.new_layout, ImageLayout::TransferSrcOptimal);
    assert_eq!(plan.pre_dst.new_layout, ImageLayout::TransferDstOptimal);
    assert_eq!(plan.post_src.new_layout, ImageLayout::PresentSrc);
    // The destination's original layout was undefined, so it is restored
    // to the general layout, never back to undefined.
    assert_eq!(plan.post_dst.new_layout, ImageLayout::General);
    assert_eq!(plan.filter, 1);
    assert_eq!(plan.subresource_aspect, ASPECT_COLOR);
    assert_eq!(plan.mip_level, 0);
    assert_eq!(plan.layer_count, 1);
}

#[test]
fn blit_restores_known_destination_layout() {
    assert_eq!(
        blit_restore_layout(ImageLayout::ColorAttachmentOptimal),
        ImageLayout::ColorAttachmentOptimal
    );
    assert_eq!(blit_restore_layout(ImageLayout::Undefined), ImageLayout::General);
    let extent = Extent2d { width: 32, height: 32 };
    let plan = blit_image(
        extent,
        ImageLayout::General,
        extent,
        ImageLayout::ShaderReadOnlyOptimal,
    );
    assert_eq!(plan.post_dst.new_layout, ImageLayout::ShaderReadOnlyOptimal);
    assert_eq!(plan.post_src.new_layout, ImageLayout::General);
}

#[test]
fn scheme_follows_resource_kind() {
    assert_eq!(
        scheme_for(AllocationResource::Image(7)),
        AllocationScheme::DedicatedImage(7)
    );
    assert_eq!(
        scheme_for(AllocationResource::Buffer(9)),
        AllocationScheme::DedicatedBuffer(9)
    );
    assert_eq!(
        scheme_for(AllocationResource::Unbound),
        AllocationScheme::GpuAllocatorManaged
    );
}

#[test]
fn alloc_request_passes_everything_through() {
    let reqs = MemoryRequirements { size: 4096, alignment: 256, memory_type_bits: 0b1010 };
    let r = alloc_memory(reqs, MemoryLocation::CpuToGpu, false, AllocationResource::Unbound);
    assert_eq!(r.requirements, reqs);
    assert_eq!(r.location, MemoryLocation::CpuToGpu);
    assert!(!r.linear);
    assert_eq!(r.scheme, AllocationScheme::GpuAllocatorManaged);
}

#[test]
fn dealloc_consumes_ownership_even_when_backend_fails() {
    let mut ledger = AllocationLedger::new();
    let a = Allocation { id: 11, offset: 0, size: 64 };
    let b = Allocation { id: 22, offset: 64, size: 64 };
    ledger.record_alloc(&a);
    ledger.record_alloc(&b);
    assert!(ledger.is_live(11));
    // The backend reports failure: the call must not raise and the
    // allocation is consumed all the same.
    ledger.dealloc(a, false);
    assert!(!ledger.is_live(11));
    assert!(ledger.is_live(22));
    ledger.dealloc(b, true);
    assert!(!ledger.is_live(22));
}

#[test]
fn storage_buffer_request_gets_dedicated_scheme_and_address() {
    // Storage usage bit of the graphics API.
    let usage_storage: u32 = 0x20;
    let desc = buffer_create_desc(256, usage_storage);
    assert_eq!(desc.size, 256);
    assert_eq!(desc.usage, usage_storage | BUFFER_USAGE_SHADER_DEVICE_ADDRESS);

    let reqs = MemoryRequirements { size: 256, alignment: 16, memory_type_bits: 1 };
    let request = buffer_alloc_request(0xBEEF, reqs, MemoryLocation::GpuOnly);
    assert_eq!(request.scheme, AllocationScheme::DedicatedBuffer(0xBEEF));
    assert!(request.linear);

    let allocation = Allocation { id: 1, offset: 0, size: 256 };
    let buffer = assemble_buffer(0xBEEF, allocation, 256, 0xDEAD_0000).unwrap();
    assert_ne!(buffer.address, 0);
    assert_eq!(buffer.size, 256);
}

#[test]
fn buffer_with_null_address_is_refused() {
    let allocation = Allocation { id: 1, offset: 0, size: 16 };
    assert_eq!(
        assemble_buffer(3, allocation, 16, 0).unwrap_err(),
        BufferError::NullDeviceAddress
    );
}

#[test]
fn image_request_linearity_follows_tiling() {
    let reqs = MemoryRequirements { size: 1024, alignment: 4, memory_type_bits: 1 };
    let linear = image_alloc_request(5, reqs, MemoryLocation::GpuToCpu, TILING_LINEAR);
    assert!(linear.linear);
    assert_eq!(linear.scheme, AllocationScheme::DedicatedImage(5));
    let optimal = image_alloc_request(5, reqs, MemoryLocation::GpuOnly, TILING_OPTIMAL);
    assert!(!optimal.linear);
}

#[test]
fn staging_image_rounds_extent_up_to_even() {
    let desc = capture_staging_desc(Extent2d { width: 641, height: 480 });
    assert_eq!(desc.width, 642);
    assert_eq!(desc.height, 480);
    assert_eq!(desc.depth, 1);
    assert_eq!(desc.image_type, IMAGE_TYPE_2D);
    assert_eq!(desc.format, FORMAT_R8G8B8A8_UNORM);
    assert_eq!(desc.usage, IMAGE_USAGE_TRANSFER_DST);
    assert_eq!(desc.tiling, TILING_LINEAR);
    assert_eq!(desc.mip_levels, 1);
    assert_eq!(desc.array_layers, 1);
    assert_eq!(desc.location, MemoryLocation::GpuToCpu);
}

#[test]
fn align_to_rounds_up() {
    assert_eq!(align_to(0, 2), 0);
    assert_eq!(align_to(7, 2), 8);
    assert_eq!(align_to(8, 2), 8);
    assert_eq!(align_to(13, 16), 16);
}

#[test]
fn view_desc_covers_remaining_levels() {
    let v = create_2d_view(FORMAT_R8G8B8A8_UNORM, 2);
    assert_eq!(v.base_mip_level, 2);
    assert_eq!(v.level_count, REMAINING_MIP_LEVELS);
    assert_eq!(v.aspect_mask, ASPECT_COLOR);
    assert_eq!(v.base_array_layer, 0);
    assert_eq!(v.layer_count, REMAINING_ARRAY_LAYERS);
}

#[test]
fn typed_buffer_label_names_the_type() {
    assert_eq!(
        gpu_core::resources::typed_buffer_label("Params"),
        "BufferTyped<Params>"
    );
}

#[test]
fn one_time_submit_waits_unbounded() {
    let plan = one_time_submit_plan();
    assert_eq!(plan.fence_flags, 0);
    assert_eq!(plan.command_buffer_count, 1);
    assert_eq!(plan.command_buffer_level, COMMAND_BUFFER_LEVEL_PRIMARY);
    assert_eq!(plan.begin_flags, COMMAND_BUFFER_ONE_TIME_SUBMIT);
    assert!(plan.wait_all);
    assert_eq!(plan.wait_timeout_ns, u64::MAX);
}

#[test]
fn queue_configs_use_fixed_priorities() {
    let choice = PhysicalDeviceChoice {
        device_index: 0,
        main_queue_family_idx: 3,
        transfer_queue_family_idx: 5,
    };
    let (main, transfer) = queue_configs(&choice);
    assert_eq!(main.family_index, 3);
    assert_eq!(main.priority_hundredths, 100);
    assert_eq!(transfer.family_index, 5);
    assert_eq!(transfer.priority_hundredths, 50);
    let pool = transient_command_pool_config(&choice);
    assert_eq!(pool.flags, COMMAND_POOL_TRANSIENT);
    assert_eq!(pool.queue_family_index, 3);
}

#[test]
fn feature_bundle_is_fixed_except_robustness() {
    let release = required_features(false);
    assert!(release.dynamic_rendering);
    assert!(release.buffer_device_address);
    assert!(release.synchronization2);
    assert!(release.shader_int64);
    assert!(!release.robust_buffer_access);
    let debug = required_features(true);
    assert!(debug.robust_buffer_access);
}

#[test]
fn renderer_info_names_the_device() {
    let choice = PhysicalDeviceChoice {
        device_index: 0,
        main_queue_family_idx: 0,
        transfer_queue_family_idx: 1,
    };
    let device = Device::new(
        &choice,
        DeviceProperties {
            device_name: String::from("Test GPU"),
            device_type: 2,
            vendor_id: 0x10DE,
        },
    );
    assert_eq!(device.get_device_name(), "Test GPU");
    assert_eq!(device.get_device_type(), "DISCRETE_GPU");
    assert_eq!(device.get_vendor_name(), "NVIDIA Corporation");
    let info = device.get_info();
    assert_eq!(info.device_name, "Test GPU");
    assert_eq!(
        info.describe(),
        "Vendor name: NVIDIA Corporation\nDevice name: Test GPU\nDevice type: DISCRETE_GPU\n"
    );
}

#[test]
fn vendor_table_matches_fixed_names() {
    let mk = |vendor_id: u32| {
        let choice = PhysicalDeviceChoice {
            device_index: 0,
            main_queue_family_idx: 0,
            transfer_queue_family_idx: 1,
        };
        Device::new(
            &choice,
            DeviceProperties { device_name: String::new(), device_type: 99, vendor_id },
        )
    };
    assert_eq!(mk(0x1002).get_vendor_name(), "AMD");
    assert_eq!(mk(0x1010).get_vendor_name(), "ImgTec");
    assert_eq!(mk(0x13B5).get_vendor_name(), "ARM");
    assert_eq!(mk(0x5143).get_vendor_name(), "Qualcomm");
    assert_eq!(mk(0x8086).get_vendor_name(), "INTEL Corporation");
    assert_eq!(mk(0x1234).get_vendor_name(), "Unknown vendor");
    assert_eq!(mk(0x1002).get_device_type(), "OTHER");
}
