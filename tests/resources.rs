use kelsier::device::{
    Device, DeviceExtension, DeviceSupport, DEVICE_LOCAL, HOST_CACHED,
    HOST_COHERENT, HOST_VISIBLE,
};
use kelsier::error::EngineError;
use kelsier::image::{ImageProperties, ImagePropertyType, FORMAT_R8G8B8A8_SRGB};
use kelsier::layout::{
    has_stencil_component, Command, CommandBuffer, ImageBarrier, ImageLayout, TransitionBarrier,
    ASPECT_COLOR, ASPECT_DEPTH, ASPECT_STENCIL, FORMAT_D24_UNORM_S8_UINT,
};
use kelsier::queue::{FamilyIndices, QueueFamily};
use kelsier::transfer::{
    uniform_buffers, BufferRequest, DescriptorPoolPlan, UploadPlan, BUFFER_USAGE_INDEX_BUFFER,
    BUFFER_USAGE_TRANSFER_DST, BUFFER_USAGE_TRANSFER_SRC, BUFFER_USAGE_UNIFORM_BUFFER,
    BUFFER_USAGE_VERTEX_BUFFER,
};
use kelsier::uniform::UniformSnapshot;

fn device(types: Vec<u32>) -> Device {
    Device { memory_types: types, family_indices: FamilyIndices { graphics: Some(0), present: Some(0) } }
}

#[test]
fn lowest_matching_memory_type_is_chosen() {
    let d = device(vec![HOST_VISIBLE | HOST_COHERENT, DEVICE_LOCAL, DEVICE_LOCAL | HOST_VISIBLE]);
    assert_eq!(d.are_properties_supported(0b111, DEVICE_LOCAL), Ok(1));
    assert_eq!(d.are_properties_supported(0b101, DEVICE_LOCAL), Ok(2));
    assert_eq!(d.are_properties_supported(0b111, HOST_VISIBLE), Ok(0));
    assert_eq!(d.are_properties_supported(0b110, HOST_VISIBLE | HOST_COHERENT), Err(EngineError::NoSuitableMemoryType));
    assert_eq!(d.are_properties_supported(0b111, HOST_CACHED), Err(EngineError::NoSuitableMemoryType));
    assert_eq!(d.are_properties_supported(0, 0), Err(EngineError::NoSuitableMemoryType));
}

#[test]
fn memory_type_choice_is_deterministic() {
    let d = device(vec![DEVICE_LOCAL, HOST_VISIBLE, DEVICE_LOCAL]);
    let first = d.are_properties_supported(0b101, DEVICE_LOCAL);
    for _ in 0..4 {
        assert_eq!(d.are_properties_supported(0b101, DEVICE_LOCAL), first);
    }
    assert_eq!(first, Ok(0));
}

#[test]
fn graphics_family_is_required_for_command_pool() {
    let mut d = device(vec![]);
    assert_eq!(d.graphics_family(), Ok(0));
    d.family_indices.graphics = None;
    assert_eq!(d.graphics_family(), Err(EngineError::MissingQueueFamily));
}

#[test]
fn unsupported_transition_records_nothing() {
    let mut cmd = CommandBuffer::new();
    assert_eq!(
        TransitionBarrier::from_layout(ImageLayout::ColorAttachmentOptimal, ImageLayout::Undefined),
        Err(EngineError::UnsupportedLayoutTransition)
    );
    let r = cmd.record_transition(
        FORMAT_R8G8B8A8_SRGB,
        ImageLayout::ColorAttachmentOptimal,
        ImageLayout::Undefined,
        1,
    );
    assert_eq!(r, Err(EngineError::UnsupportedLayoutTransition));
    assert_eq!(cmd.len(), 0);
    assert!(cmd.commands().is_empty());
}

#[test]
fn transition_table_entries() {
    assert_eq!(
        TransitionBarrier::from_layout(ImageLayout::Undefined, ImageLayout::TransferDstOptimal),
        Ok(TransitionBarrier { src_access_mask: 0, dst_access_mask: 0x1000, source_stage: 0x1, destination_stage: 0x1000 })
    );
    assert_eq!(
        TransitionBarrier::from_layout(ImageLayout::TransferDstOptimal, ImageLayout::ShaderReadOnlyOptimal),
        Ok(TransitionBarrier { src_access_mask: 0x1000, dst_access_mask: 0x20, source_stage: 0x1000, destination_stage: 0x80 })
    );
    assert_eq!(
        TransitionBarrier::from_layout(ImageLayout::Undefined, ImageLayout::DepthStencilAttachmentOptimal),
        Ok(TransitionBarrier { src_access_mask: 0, dst_access_mask: 0x600, source_stage: 0x1, destination_stage: 0x100 })
    );
    assert_eq!(
        TransitionBarrier::from_layout(ImageLayout::Undefined, ImageLayout::ColorAttachmentOptimal),
        Ok(TransitionBarrier { src_access_mask: 0, dst_access_mask: 0x180, source_stage: 0x1, destination_stage: 0x400 })
    );
    assert_eq!(
        TransitionBarrier::from_layout(ImageLayout::TransferDstOptimal, ImageLayout::Undefined),
        Err(EngineError::UnsupportedLayoutTransition)
    );
    assert_eq!(
        TransitionBarrier::from_layout(ImageLayout::ShaderReadOnlyOptimal, ImageLayout::TransferDstOptimal),
        Err(EngineError::UnsupportedLayoutTransition)
    );
}

#[test]
fn depth_aspect_includes_stencil_when_format_has_it() {
    assert!(has_stencil_component(FORMAT_D24_UNORM_S8_UINT));
    assert!(has_stencil_component(130));
    assert!(!has_stencil_component(126));
    let mut cmd = CommandBuffer::new();
    cmd.record_transition(FORMAT_D24_UNORM_S8_UINT, ImageLayout::Undefined, ImageLayout::DepthStencilAttachmentOptimal, 1).unwrap();
    cmd.record_transition(126, ImageLayout::Undefined, ImageLayout::DepthStencilAttachmentOptimal, 1).unwrap();
    match (cmd.commands()[0], cmd.commands()[1]) {
        (Command::PipelineBarrier(a), Command::PipelineBarrier(b)) => {
            assert_eq!(a.aspect_mask, ASPECT_DEPTH | ASPECT_STENCIL);
            assert_eq!(b.aspect_mask, ASPECT_DEPTH);
        }
        _ => panic!("expected two barriers"),
    }
}

#[test]
fn texture_is_transitioned_copied_and_transitioned() {
    let texture = ImagePropertyType::texture_property(64, 32);
    assert_eq!(
        *texture.get_property(),
        ImageProperties { width: 64, height: 32, format: 43, usage_flags: 0x6, aspect_flag: ASPECT_COLOR }
    );
    let mut cmd = CommandBuffer::new();
    assert_eq!(texture.perform_transition(&mut cmd), Ok(()));
    let expected = vec![
        Command::PipelineBarrier(ImageBarrier {
            old_layout: ImageLayout::Undefined,
            new_layout: ImageLayout::TransferDstOptimal,
            barrier: TransitionBarrier { src_access_mask: 0, dst_access_mask: 0x1000, source_stage: 0x1, destination_stage: 0x1000 },
            aspect_mask: ASPECT_COLOR,
            level_count: 1,
        }),
        Command::CopyBufferToImage { width: 64, height: 32 },
        Command::PipelineBarrier(ImageBarrier {
            old_layout: ImageLayout::TransferDstOptimal,
            new_layout: ImageLayout::ShaderReadOnlyOptimal,
            barrier: TransitionBarrier { src_access_mask: 0x1000, dst_access_mask: 0x20, source_stage: 0x1000, destination_stage: 0x80 },
            aspect_mask: ASPECT_COLOR,
            level_count: 1,
        }),
    ];
    assert_eq!(cmd.commands(), &expected);
}

#[test]
fn depth_image_goes_straight_to_attachment_layout() {
    let depth = ImagePropertyType::depth_property(800, 600, 126);
    assert_eq!(
        *depth.get_property(),
        ImageProperties { width: 800, height: 600, format: 126, usage_flags: 0x20, aspect_flag: ASPECT_DEPTH }
    );
    let mut cmd = CommandBuffer::new();
    assert_eq!(depth.perform_transition(&mut cmd), Ok(()));
    assert_eq!(cmd.len(), 1);
    match cmd.commands()[0] {
        Command::PipelineBarrier(b) => {
            assert_eq!(b.new_layout, ImageLayout::DepthStencilAttachmentOptimal);
            assert_eq!(b.barrier.destination_stage, 0x100);
        }
        _ => panic!("expected a barrier"),
    }
}

#[test]
fn staged_upload_plan() {
    let plan = UploadPlan::create_gpu_local_buffer(96, BUFFER_USAGE_VERTEX_BUFFER);
    assert_eq!(plan.staging, BufferRequest { size: 96, usage: BUFFER_USAGE_TRANSFER_SRC, memory_properties: HOST_VISIBLE | HOST_COHERENT });
    assert_eq!(plan.destination, BufferRequest { size: 96, usage: BUFFER_USAGE_VERTEX_BUFFER | BUFFER_USAGE_TRANSFER_DST, memory_properties: DEVICE_LOCAL });
    assert_eq!(plan.copy.commands(), &vec![Command::CopyBuffer { size: 96 }]);
    let vertices = UploadPlan::create_vertex_buffer(28);
    assert_eq!(vertices.destination.usage, 0x82);
}

#[test]
fn index_upload_counts_four_bytes_per_index() {
    let plan = UploadPlan::create_index_buffer(&vec![0, 1, 2, 2, 3, 0]);
    assert_eq!(plan.staging.size, 24);
    assert_eq!(plan.destination, BufferRequest { size: 24, usage: BUFFER_USAGE_INDEX_BUFFER | BUFFER_USAGE_TRANSFER_DST, memory_properties: DEVICE_LOCAL });
    assert_eq!(plan.copy.commands(), &vec![Command::CopyBuffer { size: 24 }]);
}

#[test]
fn one_uniform_buffer_per_image() {
    let requests = uniform_buffers(3, 192);
    assert_eq!(requests.len(), 3);
    for r in requests.iter() {
        assert_eq!(*r, BufferRequest { size: 192, usage: BUFFER_USAGE_UNIFORM_BUFFER, memory_properties: HOST_VISIBLE | HOST_COHERENT });
    }
    assert_eq!(DescriptorPoolPlan::create_descriptor_pool(3), DescriptorPoolPlan { uniform_descriptor_count: 3, max_sets: 3 });
}

#[test]
fn zero_delta_updates_keep_rotation() {
    let mut u = UniformSnapshot::new();
    u.update(250_000);
    let before = u.rotation();
    for _ in 0..5 {
        u.update(0);
        assert_eq!(u.rotation(), before);
    }
}

#[test]
fn rotation_advances_ninety_degrees_per_second() {
    let mut u = UniformSnapshot::new();
    assert_eq!(u.rotation(), 0);
    u.update(1_000_000);
    assert_eq!(u.rotation(), 90_000_000);
    u.update(16_667);
    assert_eq!(u.rotation(), 91_500_030);
    u.update(4_000_000);
    assert_eq!(u.rotation(), 91_500_030);
    u.update(3_000_000);
    assert_eq!(u.rotation(), 1_500_030);
    u.update(u64::MAX);
    assert_eq!(u.rotation(), ((1_500_030u128 + 90 * u64::MAX as u128) % 360_000_000) as u32);
}

#[test]
fn queue_families_stop_at_first_complete_pair() {
    let families = vec![
        QueueFamily { queue_count: 1, queue_flags: 0x2, present_support: true },
        QueueFamily { queue_count: 0, queue_flags: 0x1, present_support: true },
        QueueFamily { queue_count: 2, queue_flags: 0x3, present_support: false },
        QueueFamily { queue_count: 1, queue_flags: 0x1, present_support: true },
    ];
    let f = FamilyIndices::new(&families);
    assert_eq!(f, FamilyIndices { graphics: Some(2), present: Some(0) });
    assert!(f.is_available());
    let unique = f.get_unique();
    assert_eq!(unique.len(), 2);
    assert!(unique.contains(&0) && unique.contains(&2));
}

#[test]
fn same_family_counts_once() {
    let families = vec![QueueFamily { queue_count: 1, queue_flags: 0x1, present_support: true }];
    let f = FamilyIndices::new(&families);
    assert_eq!(f, FamilyIndices { graphics: Some(0), present: Some(0) });
    assert_eq!(f.get_unique().len(), 1);
}

#[test]
fn missing_family_gives_no_queues() {
    let families = vec![QueueFamily { queue_count: 1, queue_flags: 0x1, present_support: false }];
    let f = FamilyIndices::new(&families);
    assert_eq!(f, FamilyIndices { graphics: Some(0), present: None });
    assert!(!f.is_available());
    assert!(f.get_unique().is_empty());
    assert_eq!(FamilyIndices::new(&vec![]), FamilyIndices { graphics: None, present: None });
}

#[test]
fn extension_support_needs_every_name() {
    let required = DeviceExtension::required();
    assert_eq!(required.names, vec!["VK_KHR_swapchain".to_string()]);
    let available = vec!["VK_KHR_maintenance1".to_string(), "VK_KHR_swapchain".to_string()];
    assert!(required.is_supported_by(&available));
    assert!(!required.is_supported_by(&vec!["VK_KHR_maintenance1".to_string()]));
    assert!(!required.is_supported_by(&vec![]));
    assert!(Device::check_device_extension_support(&available, &required));
    assert!(!Device::check_device_extension_support(&vec!["VK_KHR_swapchain2".to_string()], &required));
}

#[test]
fn first_suitable_device_is_picked() {
    let good = DeviceSupport {
        family_indices: FamilyIndices { graphics: Some(0), present: Some(1) },
        extensions_supported: true,
        format_count: 2,
        present_mode_count: 1,
        sampler_anisotropy: true,
    };
    let no_aniso = DeviceSupport { sampler_anisotropy: false, ..good };
    let no_formats = DeviceSupport { format_count: 0, ..good };
    assert!(good.is_suitable());
    assert!(!no_aniso.is_suitable());
    assert_eq!(Device::pick_physical_device(&vec![no_aniso, no_formats, good, good]), Ok(2));
    assert_eq!(Device::pick_physical_device(&vec![no_aniso, no_formats]), Err(EngineError::NoSuitableDevice));
}
