use vk_driver::access::AccessType;
use vk_driver::accesses::{AccessIter, AccessStore};
use vk_driver::error::DriverError;
use vk_driver::micromap::{
    map_vk_result, micromap_sync_flags_for_access, HostMicromapBuildInfo, MicromapBuildSizes,
    MicromapInfo, MicromapSyncInfo, MicromapUsage, OpacityMicromapUsage,
};
use vk_driver::vk;

fn many(accesses: &mut Vec<AccessType>, next_accesses: &[AccessType]) -> Vec<AccessType> {
    let iter = AccessIter::many(accesses, &next_accesses.to_vec());
    iter.drain(accesses)
}

#[test]
fn access_tracking_elides_repeated_reads_and_retains_reads_until_write() {
    let mut accesses = vec![AccessType::Nothing];
    let read = AccessType::MicromapBuildRead;
    let other_read = AccessType::AccelerationStructureBuildMicromapRead;
    let write = AccessType::MicromapBuildWrite;

    assert_eq!(many(&mut accesses, &[read]), [AccessType::Nothing]);
    assert!(many(&mut accesses, &[read]).is_empty());
    assert_eq!(
        many(&mut accesses, &[other_read]),
        [AccessType::Nothing, read]
    );
    assert_eq!(
        many(&mut accesses, &[write]),
        [AccessType::Nothing, read, other_read]
    );
}

#[test]
fn build_sizes_preserve_storage_scratch_and_discardability() {
    let sizes = MicromapBuildSizes {
        build_scratch_size: 256,
        discardable: true,
        micromap_size: 1024,
    };
    let copy = sizes;

    assert_eq!(copy, sizes);
    assert_eq!(copy.micromap_size, 1024);
    assert_eq!(copy.build_scratch_size, 256);
    assert!(copy.discardable);
    assert!(
        !MicromapBuildSizes {
            discardable: false,
            ..sizes
        }
        .discardable
    );
}

#[test]
fn info_memory_constructors_and_builder_round_trip() {
    let device = MicromapInfo::device_mem(128);
    let host = MicromapInfo::host_mem(256);

    assert!(!device.host_visible);
    assert!(host.host_visible);
    assert_eq!(device, device.into_builder().build());
    assert_eq!(MicromapInfo::builder().size(64).build().size, 64);
}

#[test]
fn micromap_access_one_and_empty_many_replace_state_on_early_drop() {
    let read = AccessType::MicromapBuildRead;
    let write = AccessType::MicromapBuildWrite;
    let mut accesses = vec![read, AccessType::AccelerationStructureBuildMicromapRead];

    let mut iter = AccessIter::one(&mut accesses, write);

    assert_eq!(iter.next(&accesses), Some(read));
    iter.close(&mut accesses);

    assert_eq!(accesses, [write]);

    let iter = AccessIter::many(&mut accesses, &vec![]);
    iter.close(&mut accesses);

    assert_eq!(accesses, [AccessType::Nothing]);
}

#[test]
fn micromap_buffer_and_input_accesses_use_distinct_sync2_masks() {
    for (access, expected) in [
        (
            AccessType::MicromapBuildInputRead,
            vk::ACCESS_2_SHADER_READ,
        ),
        (
            AccessType::MicromapBuildBufferRead,
            vk::ACCESS_2_TRANSFER_READ,
        ),
        (
            AccessType::MicromapBuildBufferWrite,
            vk::ACCESS_2_TRANSFER_WRITE,
        ),
    ] {
        let (stage, mask) = micromap_sync_flags_for_access(access);

        assert_eq!(stage, vk::PIPELINE_STAGE_2_MICROMAP_BUILD_EXT);
        assert_eq!(mask, expected);
    }
}

#[test]
fn micromap_host_null_scratch_requires_zero_scratch_size() {
    let address = 16_usize;
    let mut info = HostMicromapBuildInfo {
        data: address,
        flags: 0,
        scratch_data: 0,
        triangle_array: address,
        triangle_array_stride: 0,
        usage_counts: &[],
    };

    assert!(info.has_host_addresses(true));
    assert!(!info.has_host_addresses(false));
    info.scratch_data = address;
    assert!(info.has_host_addresses(false));
    info.data = 0;
    assert!(!info.has_host_addresses(true));
    info.data = address;
    info.triangle_array = 0;
    assert!(!info.has_host_addresses(true));
}

#[test]
fn opacity_usage_is_typed_and_converts_to_vulkan() {
    let usage = OpacityMicromapUsage::new(7, 3, vk::OPACITY_MICROMAP_FORMAT_4_STATE);
    let raw = MicromapUsage::from(usage);

    assert_eq!(raw.count, 7);
    assert_eq!(raw.subdivision_level, 3);
    assert_eq!(raw.format, vk::OPACITY_MICROMAP_FORMAT_4_STATE as u32);
    assert_eq!(usage.count, 7);
}

#[test]
fn raw_results_map_consistently() {
    assert!(map_vk_result(vk::SUCCESS).is_ok());
    assert!(matches!(
        map_vk_result(vk::ERROR_OUT_OF_HOST_MEMORY),
        Err(DriverError::OutOfMemory)
    ));
    assert!(matches!(
        map_vk_result(vk::ERROR_DEVICE_LOST),
        Err(DriverError::InvalidData)
    ));
    assert!(matches!(
        map_vk_result(vk::ERROR_FEATURE_NOT_PRESENT),
        Err(DriverError::Unsupported)
    ));
}

#[test]
fn sync_info_uses_micromap_sync2_bits() {
    let info = MicromapSyncInfo::from_accesses(&vec![
        AccessType::MicromapBuildRead,
        AccessType::MicromapBuildWrite,
    ]);

    assert_eq!(info.stage_mask, vk::PIPELINE_STAGE_2_MICROMAP_BUILD_EXT);
    assert!(info.access_mask & vk::ACCESS_2_MICROMAP_READ_EXT != 0);
    assert!(info.access_mask & vk::ACCESS_2_MICROMAP_WRITE_EXT != 0);
}
