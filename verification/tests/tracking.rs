use vk_driver::accel_struct::{
    accel_struct_sync_flags_for_access, create_error, AccelerationStructure,
    AccelerationStructureInfo,
};
use vk_driver::access::AccessType;
use vk_driver::bench::SwapAccessBenchHarness;
use vk_driver::buffer::{
    tracked_access_after, Buffer, BufferInfo, BufferSubresourceRange,
};
use vk_driver::buffer_sync::BufferSubresourceSyncInfo;
use vk_driver::error::DriverError;
use vk_driver::image::{Image, ImageTeardown};
use vk_driver::image_info::{ImageInfo, ImageViewInfo};
use vk_driver::image_range::{
    image_subresource_range_intersection, is_aspect_mask_supported, ImageSubresourceRange,
};
use vk_driver::image_subresources::ImageSubresourceRangeIter;
use vk_driver::image_sync::{ImageSubresourceSyncInfo, ImageSyncInfo};
use vk_driver::memory::{creation_failed, MemoryLocation, ResourceCleanup, ResourceStage};
use vk_driver::micromap::{HostMicromapBuildInfo, Micromap, MicromapInfo, SERIALIZATION_ALIGNMENT};
use vk_driver::run_map::RunMap;
use vk_driver::sharing::SharingMode;
use vk_driver::vk;

fn buffer(size: u64) -> Buffer {
    Buffer::new(BufferInfo::device_mem(size, 0))
}

fn image(format: i32, layers: u32, mips: u32) -> Image {
    let info = ImageInfo::image_2d(1, 1, format, 0)
        .into_builder()
        .array_layer_count(layers)
        .mip_level_count(mips)
        .build();
    Image::new(1, info)
}

fn part(
    aspect_mask: u32,
    base_array_layer: u32,
    layer_count: u32,
    base_mip_level: u32,
    level_count: u32,
) -> ImageSubresourceRange {
    ImageSubresourceRange {
        aspect_mask,
        base_array_layer,
        layer_count,
        base_mip_level,
        level_count,
    }
}

#[test]
fn owners_read_back_from_their_codes() {
    for mode in [
        SharingMode::Concurrent,
        SharingMode::Exclusive(None),
        SharingMode::Exclusive(Some((0, 0))),
        SharingMode::Exclusive(Some((3, 7))),
    ] {
        assert_eq!(SharingMode::decode(mode.encode()), mode);
        assert!(mode.is_same(mode));
    }
    assert!(!SharingMode::Concurrent.is_same(SharingMode::Exclusive(None)));
    assert_eq!(
        SharingMode::Exclusive(Some((3, 7))).queue_family_index(),
        Some(3)
    );
    assert_eq!(SharingMode::Concurrent.queue_family_index(), None);
}

#[test]
fn assigning_twice_is_assigning_once() {
    let mut map = RunMap::new(10, 1);
    map.set_range(2, (3..7).into());
    let runs = (0..map.run_count())
        .map(|idx| map.run(idx))
        .collect::<Vec<_>>();
    map.set_range(2, (3..7).into());
    assert_eq!(
        (0..map.run_count())
            .map(|idx| map.run(idx))
            .collect::<Vec<_>>(),
        runs
    );
    assert_eq!(runs, [(1, 0), (2, 3), (1, 7)]);
    assert_eq!(map.size(), 10);
    assert_eq!(map.run_index_at(6), 1);
    assert_eq!(map.run_index_at(7), 2);
}

#[test]
fn far_offsets_are_found() {
    let mut map = RunMap::new(u64::MAX, 1);
    map.set_range(2, (1 << 63..u64::MAX).into());
    assert_eq!(map.run_index_at((1 << 63) - 1), 0);
    assert_eq!(map.run_index_at(1 << 63), 1);
    assert_eq!(map.run_index_at(u64::MAX - 1), 1);
}

#[test]
fn buffers_hand_out_the_accesses_that_they_had() {
    let mut buffer = buffer(16);
    assert_eq!(
        buffer.swap_access(AccessType::TransferWrite, (0..8).into()),
        [(AccessType::Nothing, (0..8).into())]
    );
    assert_eq!(
        buffer.swap_access(AccessType::TransferRead, (4..16).into()),
        [
            (AccessType::TransferWrite, (4..8).into()),
            (AccessType::Nothing, (8..16).into())
        ]
    );
    assert_eq!(
        buffer.swap_access(AccessType::HostWrite, (0..vk::WHOLE_SIZE).into()),
        [
            (AccessType::TransferWrite, (0..4).into()),
            (AccessType::TransferRead, (4..16).into())
        ]
    );
}

#[test]
fn pending_writes_outlive_reads_of_a_buffer() {
    let mut buffer = buffer(16);
    buffer.swap_access(AccessType::HostWrite, (0..16).into());
    assert_eq!(
        tracked_access_after(AccessType::HostWrite, AccessType::HostRead),
        AccessType::General
    );
    assert_eq!(
        buffer.swap_accesses(&vec![
            (AccessType::HostRead, (0..2).into()),
            (AccessType::HostWrite, (1..3).into())
        ]),
        [
            (AccessType::HostRead, AccessType::HostWrite, (0..2).into()),
            (AccessType::HostWrite, AccessType::General, (1..2).into()),
            (AccessType::HostWrite, AccessType::HostWrite, (2..3).into())
        ]
    );
    assert_eq!(
        buffer.swap_access(AccessType::Nothing, (0..3).into()),
        [
            (AccessType::General, (0..1).into()),
            (AccessType::HostWrite, (1..3).into())
        ]
    );
}

#[test]
fn buffers_report_accesses_with_their_owners() {
    let mut buffer = buffer(16);
    buffer.swap_access(AccessType::TransferWrite, (0..8).into());
    let owner = SharingMode::Exclusive(Some((2, 0)));
    buffer.set_sharing_ranges(owner, &vec![(4..vk::WHOLE_SIZE).into()]);
    let report = buffer.sync_info_with_sharing();
    let found = report
        .iter()
        .map(|(info, sharing)| (info.range.start, info.range.end, info.access_mask, *sharing))
        .collect::<Vec<_>>();
    let nobody = SharingMode::Exclusive(None);
    assert_eq!(
        found,
        [
            (0, 4, vk::ACCESS_TRANSFER_WRITE, nobody),
            (4, 8, vk::ACCESS_TRANSFER_WRITE, owner),
            (8, 16, 0, owner),
        ]
    );
    let sync_info = buffer.sync_info();
    assert_eq!(sync_info.ranges[1].queue_family_index, Some(2));
    assert_eq!(sync_info.ranges[0].queue_family_index, None);
    assert_eq!(
        sync_info.ranges[0].stage_mask,
        vk::PIPELINE_STAGE_TRANSFER
    );
}

#[test]
fn buffers_live_where_they_are_used() {
    let device = BufferInfo::device_mem(64, vk::BUFFER_USAGE_UNIFORM_BUFFER);
    assert_eq!(device.memory_location(), MemoryLocation::GpuOnly);
    assert!(!device.is_host_visible());
    let host = BufferInfo::host_mem(64, vk::BUFFER_USAGE_UNIFORM_BUFFER);
    assert!(host.is_host_visible());
    let readback = device.into_builder().host_readable(true).build();
    assert_eq!(readback.memory_location(), MemoryLocation::GpuToCpu);
    let upload = device.into_builder().host_writable(true).build();
    assert_eq!(upload.memory_location(), MemoryLocation::CpuToGpu);
    let aligned = device.into_builder().alignment(256).build();
    assert_eq!(aligned.allocation_alignment(64), 256);
    assert_eq!(aligned.allocation_alignment(512), 512);
}

#[test]
fn alignments_are_powers_of_two() {
    let aligned = |alignment: u64| {
        let builder = BufferInfo::builder().alignment(alignment).size(7);
        let valid = builder.build().is_alignment_valid();
        let checked = builder.build_checked();
        assert_eq!(checked, valid.then_some(builder.build()));
        valid
    };
    assert_eq!(
        BufferInfo::builder().build_checked(),
        Some(BufferInfo::device_mem(0, 0))
    );
    assert!(aligned(1) && aligned(2));
    for bit in 2..64 {
        let power = 1u64 << bit;
        assert!(aligned(power));
        assert!(!aligned(power - 1) && !aligned(power + 1));
    }
    for alignment in [0, 3, 42, 255, 257, u64::MAX] {
        assert!(!aligned(alignment));
    }
}

#[test]
fn hosts_reach_the_bytes_they_may() {
    let device = BufferInfo::device_mem(16, vk::BUFFER_USAGE_UNIFORM_BUFFER);
    assert_eq!(device.readable_range(), None);
    assert_eq!(device.writable_range(), None);
    assert_eq!(device.upload_range(0, 16), None);
    assert!(!device.has_device_address());
    let addressable = device
        .into_builder()
        .usage(vk::BUFFER_USAGE_UNIFORM_BUFFER | vk::BUFFER_USAGE_SHADER_DEVICE_ADDRESS)
        .build();
    assert!(addressable.has_device_address());
    let readback = device.into_builder().host_readable(true).build();
    assert_eq!(readback.readable_range(), Some((0..16).into()));
    assert_eq!(readback.writable_range(), None);
    assert_eq!(readback.upload_range(0, 1), None);
    let upload = device.into_builder().host_writable(true).build();
    assert_eq!(upload.readable_range(), None);
    assert_eq!(upload.writable_range(), Some((0..16).into()));
    assert_eq!(upload.upload_range(4, 12), Some((4..16).into()));
    assert_eq!(upload.upload_range(16, 0), Some((16..16).into()));
    assert_eq!(upload.upload_range(4, 13), None);
    assert_eq!(upload.upload_range(u64::MAX, 1), None);
}

#[test]
fn uploads_are_read_back() {
    let info = BufferInfo::host_mem(6, 0);
    let mut mapped = vec![9u8; 6];
    assert!(info.upload(&mut mapped, 2, &[1, 2, 3]));
    assert_eq!(mapped, [9, 9, 1, 2, 3, 9]);
    assert!(!info.upload(&mut mapped, 4, &[7, 7, 7]));
    assert_eq!(mapped, [9, 9, 1, 2, 3, 9]);
    assert!(info.upload(&mut mapped, 0, &[0xde, 0xad, 0xc0, 0xde, 0xbe, 0xef]));
    assert_eq!(mapped, [0xde, 0xad, 0xc0, 0xde, 0xbe, 0xef]);
    let readback = info.into_builder().host_writable(false).build();
    assert!(!readback.upload(&mut mapped, 0, &[0]));
    assert_eq!(mapped[0], 0xde);
}

#[test]
fn images_read_back_their_accesses() {
    let mut image = image(vk::FORMAT_R8_UINT, 2, 2);
    let color = vk::IMAGE_ASPECT_COLOR;
    let corner = part(color, 1, 1, 0, 1);
    image.swap_access(AccessType::TransferWrite, corner);
    assert_eq!(
        image.swap_access(AccessType::TransferRead, corner),
        [(AccessType::TransferWrite, corner)]
    );
    assert_eq!(
        image.swap_accesses(&vec![(
            AccessType::General,
            part(
                color,
                0,
                vk::REMAINING_ARRAY_LAYERS,
                0,
                vk::REMAINING_MIP_LEVELS
            )
        )]),
        [
            (
                AccessType::General,
                AccessType::Nothing,
                part(color, 0, 1, 0, 2)
            ),
            (
                AccessType::General,
                AccessType::TransferRead,
                part(color, 1, 1, 0, 1)
            ),
            (
                AccessType::General,
                AccessType::Nothing,
                part(color, 1, 1, 1, 1)
            ),
        ]
    );
}

#[test]
fn disjoint_accesses_do_not_meet() {
    let color = vk::IMAGE_ASPECT_COLOR;
    let first = (AccessType::TransferWrite, part(color, 0, 1, 0, 2));
    let second = (AccessType::HostRead, part(color, 1, 1, 1, 1));
    let mut one = image(vk::FORMAT_R8_UINT, 2, 2);
    let mut other = image(vk::FORMAT_R8_UINT, 2, 2);
    one.swap_accesses(&vec![first, second]);
    other.swap_accesses(&vec![second, first]);
    let whole = part(color, 0, 2, 0, 2);
    assert_eq!(
        one.swap_access(AccessType::General, whole),
        other.swap_access(AccessType::General, whole)
    );
}

#[test]
fn level_reports_are_exact() {
    let mut image = image(vk::FORMAT_R8_UINT, 1, 4);
    let color = vk::IMAGE_ASPECT_COLOR;
    image.swap_access(AccessType::TransferWrite, part(color, 0, 1, 1, 2));
    let report = image.sync_info_with_sharing();
    let found = report
        .iter()
        .map(|(info, _)| (info.range, info.layout))
        .collect::<Vec<_>>();
    assert_eq!(
        found,
        [
            (part(color, 0, 1, 0, 1), None),
            (
                part(color, 0, 1, 1, 2),
                Some(vk::IMAGE_LAYOUT_TRANSFER_DST_OPTIMAL)
            ),
            (part(color, 0, 1, 3, 1), None),
        ]
    );
    assert_eq!(image.sync_info().subresources.len(), 3);
}

#[test]
fn reports_hold_every_layer() {
    let color = vk::IMAGE_ASPECT_COLOR;
    let mut image = image(vk::FORMAT_R8_UINT, 2, 2);
    let ranges = |image: &Image| {
        image
            .sync_info_with_sharing()
            .iter()
            .map(|(info, _)| info.range)
            .collect::<Vec<_>>()
    };
    assert_eq!(ranges(&image), [part(color, 0, 2, 0, 2)]);
    image.swap_access(AccessType::TransferWrite, part(color, 0, 1, 1, 1));
    assert_eq!(
        ranges(&image),
        [
            part(color, 0, 1, 0, 1),
            part(color, 0, 1, 1, 1),
            part(color, 1, 1, 0, 2),
        ]
    );
    image.swap_access(AccessType::TransferWrite, part(color, 1, 1, 1, 1));
    assert_eq!(
        ranges(&image),
        [
            part(color, 0, 1, 0, 1),
            part(color, 0, 1, 1, 1),
            part(color, 1, 1, 0, 1),
            part(color, 1, 1, 1, 1),
        ]
    );
    image.swap_access(AccessType::HostRead, part(color, 0, 2, 0, 2));
    assert_eq!(ranges(&image), [part(color, 0, 2, 0, 2)]);
    let report = image.sync_info_with_sharing_range(part(color, 1, 1, 1, 1));
    assert_eq!(report.len(), 1);
    assert_eq!(report[0].0.range, part(color, 1, 1, 1, 1));
    assert_eq!(image.sync_info().subresources.len(), 1);
    assert_eq!(
        image.sync_info().subresources[0].range,
        part(color, 0, 2, 0, 2)
    );
}

#[test]
fn reports_keep_aspects_apart() {
    let (depth, stencil) = (vk::IMAGE_ASPECT_DEPTH, vk::IMAGE_ASPECT_STENCIL);
    let mut image = image(vk::FORMAT_D24_UNORM_S8_UINT, 3, 2);
    let owner = SharingMode::Exclusive(Some((2, 0)));
    image.set_sharing_ranges(owner, &vec![part(stencil, 1, 2, 0, 2)]);
    let found = image
        .sync_info_with_sharing()
        .iter()
        .map(|(info, sharing)| (info.range, *sharing))
        .collect::<Vec<_>>();
    assert_eq!(
        found,
        [
            (part(depth, 0, 3, 0, 2), SharingMode::Exclusive(None)),
            (part(stencil, 0, 1, 0, 2), SharingMode::Exclusive(None)),
            (part(stencil, 1, 2, 0, 2), owner),
        ]
    );
    let published = image.sync_info().subresources;
    assert_eq!(published.len(), 3);
    assert_eq!(published[2].queue_family_index, Some(2));
}

#[test]
fn swaps_leave_no_subresource_out() {
    let (depth, stencil) = (vk::IMAGE_ASPECT_DEPTH, vk::IMAGE_ASPECT_STENCIL);
    let both = depth | stencil;
    let whole = part(both, 0, 2, 0, 1);
    let mut layers = image(vk::FORMAT_D24_UNORM_S8_UINT, 2, 1);
    layers.swap_access(AccessType::TransferWrite, part(depth, 0, 1, 0, 1));
    assert_eq!(
        layers.swap_access(AccessType::General, whole),
        [
            (AccessType::TransferWrite, part(depth, 0, 1, 0, 1)),
            (AccessType::Nothing, part(depth, 1, 1, 0, 1)),
            (AccessType::Nothing, part(stencil, 0, 2, 0, 1)),
        ]
    );
    assert_eq!(
        layers.swap_access(AccessType::HostRead, whole),
        [(AccessType::General, whole)]
    );
    let mut levels = image(vk::FORMAT_D24_UNORM_S8_UINT, 1, 3);
    levels.swap_access(AccessType::TransferWrite, part(depth, 0, 1, 0, 1));
    assert_eq!(
        levels.swap_access(AccessType::General, part(both, 0, 1, 0, 3)),
        [
            (AccessType::TransferWrite, part(depth, 0, 1, 0, 1)),
            (AccessType::Nothing, part(depth, 0, 1, 1, 2)),
            (AccessType::Nothing, part(stencil, 0, 1, 0, 3)),
        ]
    );
}

#[test]
fn images_report_their_owners() {
    let mut image = image(vk::FORMAT_D24_UNORM_S8_UINT, 1, 1);
    let owner = SharingMode::Exclusive(Some((4, 1)));
    image.set_sharing_ranges(owner, &vec![part(vk::IMAGE_ASPECT_STENCIL, 0, 1, 0, 1)]);
    let report = image.sync_info_with_sharing_range(part(vk::IMAGE_ASPECT_STENCIL, 0, 1, 0, 1));
    assert_eq!(report.len(), 1);
    assert_eq!(report[0].1, owner);
    let report = image.sync_info_with_sharing_range(part(vk::IMAGE_ASPECT_DEPTH, 0, 1, 0, 1));
    assert_eq!(report[0].1, SharingMode::Exclusive(None));
}

#[test]
fn image_views_move_with_detached_images() {
    let mut image = image(vk::FORMAT_R8_UINT, 1, 1);
    let view = ImageViewInfo::new(vk::FORMAT_R8_UINT, vk::IMAGE_VIEW_TYPE_2D);
    assert_eq!(image.cached_view(view), None);
    image.insert_view(view, 9);
    assert_eq!(image.cached_view(view), Some(9));
    let detached = image.to_detached();
    assert_eq!(detached.handle(), 1);
    assert_eq!(detached.cached_view(view), Some(9));
    assert_eq!(image.cached_view(view), None);
}

#[test]
fn compaction_keeps_what_is_required() {
    let entry = |base: u32, count: u32, access_mask: u32| ImageSubresourceSyncInfo {
        access_mask,
        layout: None,
        queue_family_index: None,
        range: part(vk::IMAGE_ASPECT_COLOR, 0, 1, base, count),
        stage_mask: 1,
    };
    let info = ImageSyncInfo {
        subresources: vec![entry(0, 1, 2), entry(1, 2, 2), entry(3, 1, 4)],
    };
    let compacted = info.into_compacted();
    assert_eq!(compacted.subresources, [entry(0, 3, 2), entry(3, 1, 4)]);
}

#[test]
fn subresources_are_walked_in_order() {
    let mut iter = ImageSubresourceRangeIter::new(part(
        vk::IMAGE_ASPECT_DEPTH | vk::IMAGE_ASPECT_STENCIL,
        1,
        2,
        3,
        1,
    ));
    assert_eq!(iter.len(), 4);
    let mut found = Vec::new();
    while let Some(range) = iter.next() {
        found.push(range);
    }
    assert_eq!(found.len(), 4);
    assert_eq!(found[0], part(vk::IMAGE_ASPECT_DEPTH, 1, 1, 3, 1));
    assert!(found.contains(&part(vk::IMAGE_ASPECT_STENCIL, 2, 1, 3, 1)));
    assert_eq!(iter.len(), 0);
}

#[test]
fn subresources_of_any_aspects_are_walked() {
    let mut iter = ImageSubresourceRangeIter::new(part(0x8000_0011, 4, 1, 1, 2));
    let mut found = Vec::new();
    while iter.len() > 0 {
        let left = iter.len();
        found.push(iter.next());
        assert_eq!(iter.len(), left - 1);
    }
    assert_eq!(iter.next(), None);
    assert_eq!(
        found,
        [
            Some(part(0x1, 4, 1, 1, 1)),
            Some(part(0x1, 4, 1, 2, 1)),
            Some(part(0x10, 4, 1, 1, 1)),
            Some(part(0x10, 4, 1, 2, 1)),
            Some(part(0x8000_0000, 4, 1, 1, 1)),
            Some(part(0x8000_0000, 4, 1, 2, 1)),
        ]
    );
    let mut nothing = ImageSubresourceRangeIter::new(part(0, 0, 1, 0, 1));
    assert_eq!((nothing.len(), nothing.next()), (0, None));
}

#[test]
fn ranges_meet_in_what_they_share() {
    let color = vk::IMAGE_ASPECT_COLOR;
    assert_eq!(
        image_subresource_range_intersection(part(color, 0, 3, 1, 3), part(color, 2, 4, 0, 2)),
        Some(part(color, 2, 1, 1, 1))
    );
    assert_eq!(
        image_subresource_range_intersection(part(color, 0, 1, 0, 1), part(color, 1, 1, 0, 1)),
        None
    );
    assert!(is_aspect_mask_supported(color));
    assert!(!is_aspect_mask_supported(0));
}

#[test]
fn harnesses_swap_accesses() {
    let mut harness = SwapAccessBenchHarness::new(2, 1, vk::FORMAT_R8_UINT);
    let color = vk::IMAGE_ASPECT_COLOR;
    let whole = part(color, 0, vk::REMAINING_ARRAY_LAYERS, 0, 1);
    assert_eq!(
        harness.swap_access(AccessType::HostWrite, part(color, 1, 1, 0, 1)),
        [(AccessType::Nothing, part(color, 1, 1, 0, 1))]
    );
    assert_eq!(
        harness.swap_access(AccessType::HostRead, whole),
        [
            (AccessType::Nothing, part(color, 0, 1, 0, 1)),
            (AccessType::HostWrite, part(color, 1, 1, 0, 1))
        ]
    );
}

#[test]
fn views_follow_their_image() {
    let cube = ImageInfo::cube(8, vk::FORMAT_R8_UINT, 0);
    assert!(cube.is_cube());
    assert_eq!(cube.into_image_view().ty, vk::IMAGE_VIEW_TYPE_CUBE);
    let layered = ImageInfo::image_2d_array(8, 8, 3, vk::FORMAT_R8_UINT, 0);
    assert!(layered.is_array());
    assert_eq!(layered.into_image_view().ty, vk::IMAGE_VIEW_TYPE_2D_ARRAY);
    assert_eq!(
        ImageInfo::image_3d(8, 8, 8, vk::FORMAT_R8_UINT, 0)
            .into_image_view()
            .ty,
        vk::IMAGE_VIEW_TYPE_3D
    );
    let range = ImageSubresourceRange::from(layered.into_image_view());
    assert!(layered.is_full_subresource_range(layered.resolve_subresource_counts(range)));
}

#[test]
fn acceleration_structures_wait_for_their_accesses() {
    let info = AccelerationStructureInfo::tlas(64);
    let mut accel_struct = AccelerationStructure::new(3, info);
    let read = AccessType::RayTracingShaderReadAccelerationStructure;
    let write = AccessType::AccelerationStructureBuildWrite;
    assert_eq!(accel_struct.swap_access(write), [AccessType::Nothing]);
    assert_eq!(accel_struct.swap_accesses(&vec![read]), [write]);
    let sync_info = accel_struct.sync_info();
    let (stages, accesses) = accel_struct_sync_flags_for_access(write);
    assert_eq!(sync_info.stage_mask & stages, stages);
    assert_eq!(sync_info.access_mask & accesses, accesses);
    assert_eq!((accel_struct.handle(), accel_struct.info()), (3, info));
    assert_eq!(
        create_error(vk::ERROR_OUT_OF_HOST_MEMORY),
        DriverError::OutOfMemory
    );
    assert_eq!(info.storage().size, 64);
}

#[test]
fn host_commands_need_host_visible_micromaps() {
    let host = || Micromap::new(1, 2, MicromapInfo::host_mem(64), true);
    let device = Micromap::new(1, 2, MicromapInfo::device_mem(64), true);
    assert_eq!(
        device.require_host_commands(),
        Err(DriverError::InvalidData)
    );
    let without = Micromap::new(1, 2, MicromapInfo::host_mem(64), false);
    assert_eq!(
        without.require_host_commands(),
        Err(DriverError::Unsupported)
    );
    assert_eq!(SERIALIZATION_ALIGNMENT, 16);
    assert_eq!(host().check_serialize_host(64, 64, 32), Ok(()));
    assert_eq!(
        host().check_serialize_host(64, 63, 32),
        Err(DriverError::InvalidData)
    );
    assert_eq!(
        host().check_serialize_host(64, 64, 33),
        Err(DriverError::InvalidData)
    );
    assert_eq!(
        host().check_deserialize_host(0, 32),
        Err(DriverError::InvalidData)
    );
    assert_eq!(host().check_deserialize_host(8, 32), Ok(()));
    assert_eq!(
        host().check_property(vk::QUERY_TYPE_OCCLUSION),
        Err(DriverError::InvalidData)
    );
    assert_eq!(
        host().check_property(vk::QUERY_TYPE_MICROMAP_COMPACTED_SIZE_EXT),
        Ok(())
    );
    let build = HostMicromapBuildInfo {
        data: 16,
        flags: 0,
        scratch_data: 0,
        triangle_array: 16,
        triangle_array_stride: 0,
        usage_counts: &[],
    };
    assert_eq!(host().check_build_host(&build, 0), Ok(()));
    assert_eq!(
        host().check_build_host(&build, 1),
        Err(DriverError::InvalidData)
    );
}

#[test]
fn finished_host_copies_are_accesses() {
    let mut source = Micromap::new(1, 2, MicromapInfo::host_mem(64), true);
    let mut target = Micromap::new(1, 3, MicromapInfo::host_mem(64), true);
    let stranger = Micromap::new(9, 3, MicromapInfo::host_mem(64), true);
    assert_eq!(
        stranger.check_copy_from_host(&source),
        Err(DriverError::InvalidData)
    );
    assert_eq!(target.check_copy_from_host(&source), Ok(()));
    assert_eq!(
        target.finish_copy_from_host(&mut source, vk::ERROR_OUT_OF_HOST_MEMORY),
        Err(DriverError::OutOfMemory)
    );
    assert_eq!(
        target.finish_copy_from_host(&mut source, vk::SUCCESS),
        Ok(())
    );
    assert_eq!(
        target.swap_access(AccessType::MicromapBuildRead),
        [AccessType::MicromapBuildWrite]
    );
    assert_eq!(
        source.swap_access(AccessType::MicromapBuildRead),
        [AccessType::MicromapBuildRead]
    );
    assert_eq!(source.finish_host_write(vk::SUCCESS), Ok(()));
    assert_eq!(
        source.sync_info().access_mask,
        vk::ACCESS_2_MICROMAP_WRITE_EXT
    );
    assert_eq!(
        source.finish_host_read(vk::ERROR_DEVICE_LOST),
        Err(DriverError::InvalidData)
    );
}

#[test]
fn half_made_resources_are_undone_backwards() {
    assert_eq!(
        creation_failed(ResourceStage::Handle, DriverError::OutOfMemory),
        (vec![], DriverError::Unsupported)
    );
    assert_eq!(
        creation_failed(ResourceStage::Memory, DriverError::OutOfMemory),
        (
            vec![ResourceCleanup::DestroyHandle],
            DriverError::OutOfMemory
        )
    );
    assert_eq!(
        creation_failed(ResourceStage::Binding, DriverError::Unsupported),
        (
            vec![ResourceCleanup::FreeMemory, ResourceCleanup::DestroyHandle],
            DriverError::OutOfMemory
        )
    );
}

#[test]
fn only_owned_images_are_destroyed() {
    let view = ImageViewInfo::new(vk::FORMAT_R8G8B8A8_UNORM, vk::IMAGE_VIEW_TYPE_2D);
    let make = || {
        let mut made = image(vk::FORMAT_R8G8B8A8_UNORM, 1, 1);
        made.insert_view(view, 9);
        made
    };
    let handle = make().handle();

    assert!(make().teardown(true, true).is_empty());
    assert_eq!(
        make().teardown(false, true),
        [
            ImageTeardown::ClearName(handle),
            ImageTeardown::View(9),
            ImageTeardown::Image(handle),
            ImageTeardown::Memory,
        ]
    );
    assert_eq!(
        make().teardown(false, false),
        [ImageTeardown::ForgetName(handle), ImageTeardown::View(9)]
    );
}

#[test]
fn disjoint_buffer_accesses_do_not_meet() {
    let first = (AccessType::TransferWrite, (0..4).into());
    let second = (AccessType::HostRead, (8..12).into());
    let mut one = buffer(16);
    one.swap_accesses(&vec![first, second]);
    let mut two = buffer(16);
    two.swap_accesses(&vec![second, first]);
    assert_eq!(one.sync_info(), two.sync_info());

    let mut one = buffer(16);
    one.swap_access(first.0, first.1);
    one.swap_access(second.0, second.1);
    let mut two = buffer(16);
    two.swap_access(second.0, second.1);
    two.swap_access(first.0, first.1);
    assert_eq!(one.sync_info(), two.sync_info());
}

#[test]
fn the_last_use_of_a_buffer_is_reported() {
    let range = BufferSubresourceRange { start: 4, end: 12 };
    let owner = SharingMode::Exclusive(Some((2, 1)));
    let mut buffer = buffer(16);
    buffer.swap_access(AccessType::HostRead, (0..8).into());
    buffer.swap_access(AccessType::TransferWrite, range);
    buffer.set_sharing_ranges(owner, &vec![range]);
    assert_eq!(
        buffer.sync_info_with_sharing_range(range),
        [(
            BufferSubresourceSyncInfo::from_access(AccessType::TransferWrite, range),
            owner
        )]
    );
}
