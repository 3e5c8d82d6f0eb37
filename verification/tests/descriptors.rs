use vk_driver::accel_struct::AccelerationStructureInfo;
use vk_driver::buffer::BufferInfo;
use vk_driver::compute::{ComputePipeline, ComputePipelineInfo};
use vk_driver::descriptor_set::{
    allocation_error, DescriptorContent, DescriptorCopy, DescriptorLimits, DescriptorPoolInfo,
    DescriptorPoolSize, DescriptorSet, DescriptorSetBinding, DescriptorSetInfo,
    DescriptorSetUpdateInfo, DescriptorSetUpdates, DescriptorWrite, PipelineDescriptorInfo,
};
use vk_driver::descriptor_set_layout::{
    same_info, DescriptorSetLayout, DescriptorSetLayoutBindingInfo, DescriptorSetLayoutInfo,
    DescriptorSetLayoutKey,
};
use vk_driver::error::DriverError;
use vk_driver::handle_cache::HandleCache;
use vk_driver::image_info::{ImageInfo, ImageViewInfo};
use vk_driver::vk;

fn binding(binding: u32, descriptor_type: i32, descriptor_count: u32) -> DescriptorSetLayoutBindingInfo {
    DescriptorSetLayoutBindingInfo {
        binding,
        binding_flags: 0,
        descriptor_count,
        descriptor_type,
        immutable_sampler: None,
        stage_flags: vk::SHADER_STAGE_COMPUTE,
    }
}

fn layout(bindings: Vec<DescriptorSetLayoutBindingInfo>) -> DescriptorSetLayout {
    DescriptorSetLayout {
        device: 1,
        handle: 100,
        info: DescriptorSetLayoutInfo { bindings },
    }
}

fn at(binding: u32, array_element: u32) -> DescriptorSetBinding {
    DescriptorSetBinding {
        binding,
        array_element,
    }
}

fn limits() -> DescriptorLimits {
    DescriptorLimits {
        max_storage_buffer_range: 64,
        max_uniform_buffer_range: 32,
        min_storage_buffer_offset_alignment: 16,
        min_uniform_buffer_offset_alignment: 4,
    }
}

fn storage_buffer(size: u64) -> BufferInfo {
    BufferInfo::device_mem(size, vk::BUFFER_USAGE_STORAGE_BUFFER)
}

#[test]
fn pools_hold_what_a_layout_needs() {
    let info = DescriptorSetLayoutInfo {
        bindings: vec![
            binding(0, vk::DESCRIPTOR_TYPE_STORAGE_BUFFER, 2),
            binding(1, vk::DESCRIPTOR_TYPE_SAMPLED_IMAGE, 5),
            binding(4, vk::DESCRIPTOR_TYPE_STORAGE_BUFFER, 3),
        ],
    };
    let pool = DescriptorPoolInfo::for_layout(&info).unwrap();
    assert_eq!(pool.max_sets, 1);
    assert_eq!(pool.storage_buffer_count, 5);
    assert_eq!(pool.sampled_image_count, 5);
    assert_eq!(pool.uniform_buffer_count, 0);
    let mut sizes = pool.pool_sizes();
    sizes.sort_by_key(|size| size.ty);
    assert_eq!(
        sizes,
        [
            DescriptorPoolSize {
                ty: vk::DESCRIPTOR_TYPE_SAMPLED_IMAGE,
                descriptor_count: 5,
            },
            DescriptorPoolSize {
                ty: vk::DESCRIPTOR_TYPE_STORAGE_BUFFER,
                descriptor_count: 5,
            },
        ]
    );
}

#[test]
fn pools_refuse_what_they_cannot_hold() {
    let unknown = DescriptorSetLayoutInfo {
        bindings: vec![binding(0, vk::DESCRIPTOR_TYPE_INLINE_UNIFORM_BLOCK, 1)],
    };
    assert_eq!(
        DescriptorPoolInfo::for_layout(&unknown),
        Err(DriverError::Unsupported)
    );
    let many = DescriptorSetLayoutInfo {
        bindings: vec![
            binding(0, vk::DESCRIPTOR_TYPE_SAMPLER, u32::MAX),
            binding(1, vk::DESCRIPTOR_TYPE_SAMPLER, 1),
        ],
    };
    assert_eq!(
        DescriptorPoolInfo::for_layout(&many),
        Err(DriverError::InvalidData)
    );
}

#[test]
fn allocation_errors_are_told_apart() {
    assert_eq!(
        allocation_error(vk::ERROR_OUT_OF_HOST_MEMORY),
        DriverError::OutOfMemory
    );
    assert_eq!(
        allocation_error(vk::ERROR_INVALID_OPAQUE_CAPTURE_ADDRESS),
        DriverError::Unsupported
    );
}

#[test]
fn layouts_find_their_bindings() {
    let info = DescriptorSetLayoutInfo {
        bindings: vec![
            binding(1, vk::DESCRIPTOR_TYPE_SAMPLER, 1),
            binding(3, vk::DESCRIPTOR_TYPE_STORAGE_BUFFER, 2),
            binding(9, vk::DESCRIPTOR_TYPE_UNIFORM_BUFFER, 3),
        ],
    };
    assert_eq!(info.binding(3), Some(info.bindings[1]));
    assert_eq!(info.binding(9).unwrap().descriptor_count, 3);
    assert_eq!(info.binding(2), None);
    assert_eq!(info.binding(0), None);
}

#[test]
fn immutable_samplers_are_made_once_and_repeated() {
    let sampler = |index: u32, count: u32, key: u64| DescriptorSetLayoutBindingInfo {
        immutable_sampler: Some(key),
        ..binding(index, vk::DESCRIPTOR_TYPE_SAMPLER, count)
    };
    let info = DescriptorSetLayoutInfo {
        bindings: vec![
            sampler(0, 2, 70),
            binding(1, vk::DESCRIPTOR_TYPE_SAMPLED_IMAGE, 1),
            sampler(2, 1, 71),
            sampler(3, 1, 70),
        ],
    };
    assert_eq!(info.sampler_keys(), [70, 71]);
    assert!(!info.uses_binding_flags());
    let records = info.layout_bindings(&vec![500, 501]);
    assert_eq!(records[0].immutable_samplers, Some(vec![500, 500]));
    assert_eq!(records[1].immutable_samplers, None);
    assert_eq!(records[2].immutable_samplers, Some(vec![501]));
    assert_eq!(records[3].immutable_samplers, Some(vec![500]));
    assert_eq!(records[1].descriptor_type, vk::DESCRIPTOR_TYPE_SAMPLED_IMAGE);
}

#[test]
fn live_layouts_are_shared() {
    let key = |device: u64, count: u32| DescriptorSetLayoutKey {
        device,
        info: DescriptorSetLayoutInfo {
            bindings: vec![binding(0, vk::DESCRIPTOR_TYPE_SAMPLER, count)],
        },
    };
    assert!(same_info(&key(1, 1).info, &key(2, 1).info));
    assert!(!same_info(&key(1, 1).info, &key(1, 2).info));
    let mut cache = HandleCache::new();
    assert_eq!(cache.get(&key(1, 1)), None);
    cache.insert(key(1, 1), 10);
    cache.insert(key(1, 2), 11);
    cache.insert(key(2, 1), 12);
    assert_eq!(cache.get(&key(1, 1)), Some(10));
    assert_eq!(cache.get(&key(2, 1)), Some(12));
    cache.retain(&vec![11, 12]);
    assert_eq!(cache.get(&key(1, 1)), None);
    assert_eq!(cache.get(&key(1, 2)), Some(11));
    let mut handles = cache.drain();
    handles.sort();
    assert_eq!(handles, [11, 12]);
    assert_eq!(cache.get(&key(1, 2)), None);
}

#[test]
fn sets_come_from_layouts_of_their_pipeline() {
    let pipeline = ComputePipeline {
        descriptor_info: PipelineDescriptorInfo {
            layouts: vec![
                (0, layout(vec![binding(0, vk::DESCRIPTOR_TYPE_STORAGE_BUFFER, 1)])),
                (
                    2,
                    layout(vec![binding(0, vk::DESCRIPTOR_TYPE_STORAGE_TEXEL_BUFFER, 1)]),
                ),
            ],
        },
        device: 1,
        handle: 5,
        info: ComputePipelineInfo::default(),
        layout: 6,
        push_constants: None,
    };
    let found = DescriptorSet::pipeline_layout(&pipeline, DescriptorSetInfo { set: 0 });
    assert_eq!(found.unwrap().handle, 100);
    assert!(matches!(
        DescriptorSet::pipeline_layout(&pipeline, DescriptorSetInfo { set: 1 }),
        Err(DriverError::InvalidData)
    ));
    assert!(matches!(
        DescriptorSet::pipeline_layout(&pipeline, DescriptorSetInfo { set: 2 }),
        Err(DriverError::Unsupported)
    ));
}

#[test]
fn descriptors_lie_in_their_binding() {
    let info = DescriptorSetLayoutInfo {
        bindings: vec![binding(3, vk::DESCRIPTOR_TYPE_STORAGE_BUFFER, 4)],
    };
    assert!(DescriptorSet::validate_binding(&info, at(3, 3), 1).is_ok());
    assert!(DescriptorSet::validate_binding(&info, at(3, 0), 4).is_ok());
    for (place, count) in [
        (at(3, 4), 1),
        (at(3, 1), 4),
        (at(3, 0), 0),
        (at(2, 0), 1),
        (at(3, u32::MAX), 1),
    ] {
        assert_eq!(
            DescriptorSet::validate_binding(&info, place, count),
            Err(DriverError::InvalidData)
        );
    }
}

#[test]
fn buffer_descriptors_obey_the_limits() {
    let layout = layout(vec![binding(0, vk::DESCRIPTOR_TYPE_STORAGE_BUFFER, 1)]);
    let valid = |info: BufferInfo, start: u64, end: u64| {
        let update =
            DescriptorSetUpdateInfo::buffer_range(at(0, 0), 1, 9, info, (start..end).into());
        DescriptorSet::validate_update(1, &layout, &limits(), &update).is_ok()
    };
    assert!(valid(storage_buffer(128), 16, 80));
    assert!(!valid(storage_buffer(128), 16, 81));
    assert!(!valid(storage_buffer(128), 8, 24));
    assert!(!valid(storage_buffer(128), 32, 32));
    assert!(!valid(storage_buffer(16), 16, 32));
    assert!(valid(storage_buffer(64), 0, vk::WHOLE_SIZE));
    assert!(!valid(storage_buffer(128), 0, vk::WHOLE_SIZE));
    assert!(!valid(
        BufferInfo::device_mem(64, vk::BUFFER_USAGE_UNIFORM_BUFFER),
        0,
        16
    ));
    let other_device = DescriptorSetUpdateInfo::buffer(at(0, 0), 2, 9, storage_buffer(16));
    assert_eq!(
        DescriptorSet::validate_update(1, &layout, &limits(), &other_device),
        Err(DriverError::InvalidData)
    );
}

#[test]
fn image_descriptors_fit_their_image() {
    let layout = layout(vec![binding(0, vk::DESCRIPTOR_TYPE_STORAGE_IMAGE, 1)]);
    let info = ImageInfo::image_2d_array(
        4,
        4,
        3,
        vk::FORMAT_R8G8B8A8_UNORM,
        vk::IMAGE_USAGE_STORAGE,
    );
    let valid = |view: ImageViewInfo| {
        let update = DescriptorSetUpdateInfo::image_view(at(0, 0), 1, info, view);
        DescriptorSet::validate_update(1, &layout, &limits(), &update).is_ok()
    };
    let view = info.into_image_view();
    assert!(valid(view));
    assert!(!valid(
        view.into_builder().base_array_layer(3).build()
    ));
    assert!(!valid(view.into_builder().array_layer_count(4).build()));
    assert!(!valid(
        view.into_builder()
            .aspect_mask(vk::IMAGE_ASPECT_DEPTH)
            .build()
    ));
    assert!(!valid(
        view.into_builder().format(vk::FORMAT_R32_SFLOAT).build()
    ));
    let sampled = ImageInfo::image_2d(4, 4, vk::FORMAT_R8G8B8A8_UNORM, vk::IMAGE_USAGE_SAMPLED);
    let update = DescriptorSetUpdateInfo::image(at(0, 0), 1, sampled);
    assert!(DescriptorSet::validate_update(1, &layout, &limits(), &update).is_err());
}

#[test]
fn writes_come_before_copies() {
    let source = DescriptorSet {
        handle: 77,
        info: DescriptorSetInfo { set: 0 },
        layout: layout(vec![binding(5, vk::DESCRIPTOR_TYPE_STORAGE_BUFFER, 3)]),
    };
    assert_eq!((source.handle(), source.device()), (77, 1));
    assert_eq!(source.info().set, 0);
    let layout = layout(vec![
        binding(0, vk::DESCRIPTOR_TYPE_STORAGE_BUFFER, 2),
        binding(1, vk::DESCRIPTOR_TYPE_STORAGE_IMAGE, 1),
        binding(2, vk::DESCRIPTOR_TYPE_ACCELERATION_STRUCTURE_KHR, 1),
    ]);
    let image = ImageInfo::image_2d(4, 4, vk::FORMAT_R8G8B8A8_UNORM, vk::IMAGE_USAGE_STORAGE);
    let updates = vec![
        DescriptorSetUpdateInfo::copy_many(&source, at(5, 1), at(0, 0), 2),
        DescriptorSetUpdateInfo::buffer_range(at(0, 1), 1, 9, storage_buffer(64), (16..48).into()),
        DescriptorSetUpdateInfo::image(at(1, 0), 1, image),
        DescriptorSetUpdateInfo::acceleration_structure(
            at(2, 0),
            1,
            8,
            AccelerationStructureInfo::tlas(32),
        ),
    ];
    let views = vec![
        Err(DriverError::Unsupported),
        Err(DriverError::Unsupported),
        Ok(55),
        Err(DriverError::Unsupported),
    ];
    let prepared = DescriptorSetUpdates::prepare(1, &layout, &limits(), &updates, &views).unwrap();
    assert_eq!(
        prepared.writes,
        [
            DescriptorWrite {
                destination: at(0, 1),
                descriptor_type: vk::DESCRIPTOR_TYPE_STORAGE_BUFFER,
                content: DescriptorContent::Buffer {
                    handle: 9,
                    offset: 16,
                    range: 32,
                },
            },
            DescriptorWrite {
                destination: at(1, 0),
                descriptor_type: vk::DESCRIPTOR_TYPE_STORAGE_IMAGE,
                content: DescriptorContent::Image {
                    image_layout: vk::IMAGE_LAYOUT_GENERAL,
                    image_view: 55,
                },
            },
            DescriptorWrite {
                destination: at(2, 0),
                descriptor_type: vk::DESCRIPTOR_TYPE_ACCELERATION_STRUCTURE_KHR,
                content: DescriptorContent::AccelerationStructure(8),
            },
        ]
    );
    assert_eq!(
        prepared.copies,
        [DescriptorCopy {
            descriptor_count: 2,
            destination: at(0, 0),
            source: 77,
            source_binding: at(5, 1),
        }]
    );

    let failed = vec![Ok(0), Ok(0), Err(DriverError::OutOfMemory), Ok(0)];
    assert!(matches!(
        DescriptorSetUpdates::prepare(1, &layout, &limits(), &updates, &failed),
        Err(DriverError::OutOfMemory)
    ));
    let blas = vec![DescriptorSetUpdateInfo::acceleration_structure(
        at(2, 0),
        1,
        8,
        AccelerationStructureInfo::blas(32),
    )];
    assert!(matches!(
        DescriptorSetUpdates::prepare(1, &layout, &limits(), &blas, &vec![Ok(0)]),
        Err(DriverError::InvalidData)
    ));
}

#[test]
fn sets_are_planned_as_a_whole() {
    let pipeline = ComputePipeline {
        descriptor_info: PipelineDescriptorInfo {
            layouts: vec![(
                2,
                layout(vec![
                    binding(0, vk::DESCRIPTOR_TYPE_STORAGE_BUFFER, 2),
                    binding(1, vk::DESCRIPTOR_TYPE_STORAGE_IMAGE, 1),
                ]),
            )],
        },
        device: 1,
        handle: 7,
        info: ComputePipelineInfo::default(),
        layout: 8,
        push_constants: None,
    };
    let set = DescriptorSetInfo::builder().set(2).build();
    let image = ImageInfo::image_2d(4, 4, vk::FORMAT_R8G8B8A8_UNORM, vk::IMAGE_USAGE_STORAGE);
    let updates = vec![
        DescriptorSetUpdateInfo::buffer(at(0, 1), 1, 50, storage_buffer(64)),
        DescriptorSetUpdateInfo::image(at(1, 0), 1, image),
    ];

    let (pool, filled) =
        DescriptorSet::plan(&pipeline, set, &limits(), &updates, &vec![Ok(0), Ok(60)]).unwrap();
    assert_eq!(pool.max_sets, 1);
    assert_eq!(pool.storage_buffer_count, 2);
    assert_eq!(pool.storage_image_count, 1);
    assert!(filled.copies.is_empty());
    assert_eq!(filled.writes.len(), 2);
    assert_eq!(
        filled.writes[1].content,
        DescriptorContent::Image {
            image_layout: vk::IMAGE_LAYOUT_GENERAL,
            image_view: 60,
        }
    );

    let failed = vec![Ok(0), Err(DriverError::OutOfMemory)];
    assert_eq!(
        DescriptorSet::plan(&pipeline, set, &limits(), &updates, &failed).err(),
        Some(DriverError::OutOfMemory)
    );
    let missing = DescriptorSetInfo::builder().set(0).build();
    assert_eq!(
        DescriptorSet::plan(&pipeline, missing, &limits(), &updates, &failed).err(),
        Some(DriverError::InvalidData)
    );

    let views = vec![Ok(0), Ok(60)];
    let elsewhere = ComputePipeline {
        device: 2,
        ..pipeline
    };
    assert_eq!(
        DescriptorSet::plan(&elsewhere, set, &limits(), &updates, &views).err(),
        Some(DriverError::InvalidData)
    );
    let updates = vec![
        DescriptorSetUpdateInfo::buffer(at(0, 1), 2, 50, storage_buffer(64)),
        DescriptorSetUpdateInfo::image(at(1, 0), 2, image),
    ];
    assert!(DescriptorSet::plan(&elsewhere, set, &limits(), &updates, &views).is_ok());
}
