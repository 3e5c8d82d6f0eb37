use vk_driver::cmd_buf::{CommandBuffer, CommandBufferInfo, CommandBufferTeardown};
use vk_driver::device::{
    has_nul, select_physical_device, Device, DeviceInfo, DeviceTeardown, FencePoll,
    PhysicalDeviceSupport,
};
use vk_driver::error::{device_error, memory_error, DriverError};
use vk_driver::fence::{Fence, FenceDrop};
use vk_driver::handles::first_handle;
use vk_driver::instance::{
    ApiVersion, CallbackData, CallbackEnd, CallbackEnvironment, CallbackText, DisplayPlatform,
    Instance, InstanceInfo, InstanceState, LogLevel,
};
use vk_driver::object_names::ObjectNames;
use vk_driver::query_pool::{results_flags, results_u64, QueryPoolInfo};
use vk_driver::vk;

const BUFFER: i32 = 9;

fn all_support() -> PhysicalDeviceSupport {
    PhysicalDeviceSupport {
        acceleration_structure: true,
        present_wait: false,
        private_data: true,
        ray_tracing_pipeline: false,
        swapchain: true,
        synchronization2: true,
    }
}

#[test]
fn results_become_errors() {
    assert_eq!(
        memory_error(vk::ERROR_OUT_OF_DEVICE_MEMORY),
        DriverError::OutOfMemory
    );
    assert_eq!(
        memory_error(vk::ERROR_DEVICE_LOST),
        DriverError::Unsupported
    );
    assert_eq!(
        device_error(vk::ERROR_DEVICE_LOST),
        DriverError::InvalidData
    );
    assert_eq!(
        Device::end_command_buffer_error(vk::ERROR_INVALID_VIDEO_STD_PARAMETERS_KHR),
        DriverError::InvalidData
    );
    assert_eq!(
        Device::end_command_buffer_error(vk::ERROR_OUT_OF_HOST_MEMORY),
        DriverError::OutOfMemory
    );
    assert_eq!(
        Device::begin_command_buffer_error(vk::ERROR_INVALID_VIDEO_STD_PARAMETERS_KHR),
        DriverError::Unsupported
    );
    assert_eq!(
        Device::wait_idle_error(vk::ERROR_VALIDATION_FAILED_EXT),
        DriverError::InvalidData
    );
    assert_eq!(
        Device::reset_fences_error(vk::ERROR_OUT_OF_HOST_MEMORY),
        DriverError::Unsupported
    );
    assert_eq!(
        Device::debug_name_error(vk::ERROR_VALIDATION_FAILED_EXT),
        DriverError::InvalidData
    );
    assert_eq!(
        Instance::physical_devices_error(vk::ERROR_INITIALIZATION_FAILED),
        DriverError::Unsupported
    );
}

#[test]
fn a_missing_physical_device_index_falls_back_to_the_first() {
    assert_eq!(select_physical_device(3, 2), Ok(2));
    assert_eq!(select_physical_device(3, 3), Ok(0));
    assert_eq!(
        select_physical_device(0, 0),
        Err(DriverError::Unsupported)
    );
}

#[test]
fn names_need_debugging_and_no_nul() {
    assert!(has_nul("a\0b"));
    assert!(!has_nul("ab"));
    assert_eq!(Device::begins_debug_label(false, "a\0", false), Ok(false));
    assert_eq!(
        Device::begins_debug_label(true, "a\0", true),
        Err(DriverError::InvalidData)
    );
    assert_eq!(
        Device::begins_debug_label(true, "a", false),
        Err(DriverError::Unsupported)
    );
    assert_eq!(Device::begins_debug_label(true, "a", true), Ok(true));
    assert_eq!(Device::ends_debug_label(false, false), Ok(false));
    assert_eq!(
        Device::ends_debug_label(true, false),
        Err(DriverError::Unsupported)
    );
    assert_eq!(
        Device::names_object(true, 0, "a", true),
        Err(DriverError::InvalidData)
    );
    assert_eq!(Device::names_object(true, 1, "a", true), Ok(true));
}

#[test]
fn debugging_devices_need_debug_utils_and_private_data() {
    let plan = Device::plan(true, true, all_support()).unwrap();
    assert!(plan.log_allocations && plan.private_data && plan.surface && plan.swapchain);
    assert!(!plan.present_wait && !plan.ray_tracing_pipeline);
    assert_eq!(
        Device::plan(true, false, all_support()),
        Err(DriverError::Unsupported)
    );
    let support = PhysicalDeviceSupport {
        private_data: false,
        ..all_support()
    };
    assert_eq!(
        Device::plan(true, true, support),
        Err(DriverError::Unsupported)
    );
    assert!(Device::plan(false, false, support).is_ok());
    assert!(Device::uses_core_synchronization2(ApiVersion::Vulkan13));
    assert!(!Device::uses_core_synchronization2(ApiVersion::Vulkan12));
}

#[test]
fn queues_are_listed_family_by_family() {
    let counts = vec![2, 0, 1];
    assert_eq!(
        Device::queues(&counts),
        vec![vec![(0, 0), (0, 1)], vec![], vec![(2, 0)]]
    );
    assert!(Device::has_queue(&counts, 0, 1));
    assert!(!Device::has_queue(&counts, 1, 0));
    assert!(!Device::has_queue(&counts, 3, 0));
}

#[test]
fn fences_are_polled_before_they_are_waited_for() {
    assert_eq!(Device::FENCE_POLL_TIMEOUT, 100);
    assert_eq!(Device::after_fence_poll(vk::SUCCESS), FencePoll::Signaled);
    assert_eq!(Device::after_fence_poll(vk::TIMEOUT), FencePoll::Wait);
    assert_eq!(
        Device::after_fence_poll(vk::ERROR_DEVICE_LOST),
        FencePoll::Failed(DriverError::InvalidData)
    );
    assert_eq!(
        Device::after_fence_poll(vk::ERROR_OUT_OF_HOST_MEMORY),
        FencePoll::Failed(DriverError::OutOfMemory)
    );
    assert_eq!(
        Device::after_fence_wait(vk::ERROR_DEVICE_LOST),
        Err(DriverError::InvalidData)
    );
}

#[test]
fn devices_are_torn_down_in_order() {
    assert_eq!(
        Device::teardown(true, true),
        [DeviceTeardown::ForgetAllocator]
    );
    assert_eq!(
        Device::teardown(false, true),
        [
            DeviceTeardown::WaitIdle,
            DeviceTeardown::DestroyPipelineCache,
            DeviceTeardown::DestroyPrivateDataSlot,
            DeviceTeardown::DropAllocator,
            DeviceTeardown::DestroyDevice,
        ]
    );
}

#[test]
fn device_information_reads_back() {
    let info = DeviceInfo::builder()
        .debug(true)
        .physical_device_index(4)
        .build();
    assert!(info.debug);
    assert_eq!(info.physical_device_index, 4);
    assert_eq!(info.into_builder().build(), info);
}

#[test]
fn signaled_fences_release_their_payloads_once() {
    let mut fence = Fence::new(false);
    fence.drop_when_signaled(7);
    fence.drop_when_signaled(8);
    fence.set_timestamps(3);
    fence.mark_queued();
    assert!(fence.acts(true));
    assert_eq!(fence.dropped(false), FenceDrop::WaitAndDestroy);
    assert_eq!(fence.dropped(true), FenceDrop::Leave);
    assert_eq!(
        fence.status(Err(vk::ERROR_DEVICE_LOST)),
        Err(DriverError::InvalidData)
    );
    assert_eq!(fence.status(Ok(false)), Ok((false, vec![])));
    assert_eq!(fence.status(Ok(true)), Ok((true, vec![7, 8])));
    assert_eq!(fence.finish_wait(Ok(())), Ok(vec![]));
    assert_eq!(
        fence.finish_reset(vk::ERROR_OUT_OF_DEVICE_MEMORY),
        Err(DriverError::OutOfMemory)
    );
    assert!(fence.is_queued());
    assert_eq!(fence.timestamps(), Some(3));
    assert_eq!(fence.finish_reset(vk::SUCCESS), Ok(()));
    assert!(!fence.is_queued());
    assert_eq!(fence.timestamps(), None);
    assert!(!fence.acts(true));
    assert!(fence.acts(false));
    assert_eq!(fence.dropped(false), FenceDrop::Destroy);
}

#[test]
fn failed_waits_release_nothing() {
    let mut fence = Fence::new(true);
    fence.drop_when_signaled(7);
    assert_eq!(
        fence.finish_wait(Err(DriverError::InvalidData)),
        Err(DriverError::InvalidData)
    );
    assert_eq!(fence.finish_wait(Ok(())), Ok(vec![7]));
}

#[test]
fn command_buffers_are_the_first_handle_that_is_one() {
    assert_eq!(first_handle(&vec![0, 5, 6]), Some(5));
    assert_eq!(first_handle(&vec![0, 0]), None);
    let info = CommandBufferInfo::new(2);
    assert!(matches!(
        CommandBuffer::new(info, 9, &vec![0]),
        Err(DriverError::Unsupported)
    ));
    let mut cmd_buf = CommandBuffer::new(info, 9, &vec![0, 5]).unwrap();
    assert_eq!(cmd_buf.handle(), 5);
    assert_eq!(cmd_buf.info(), info);
    assert_eq!(cmd_buf.pool(), 9);
    cmd_buf.set_release_semaphore(11);
    assert!(cmd_buf.teardown(true).is_empty());
    assert_eq!(cmd_buf.release_semaphore(), Some(11));
    assert_eq!(
        cmd_buf.teardown(false),
        [
            CommandBufferTeardown::Semaphore(11),
            CommandBufferTeardown::CommandBuffer(5),
            CommandBufferTeardown::Pool(9),
        ]
    );
    assert_eq!(
        CommandBuffer::pool_flags(),
        vk::COMMAND_POOL_CREATE_TRANSIENT | vk::COMMAND_POOL_CREATE_RESET_COMMAND_BUFFER
    );
}

#[test]
fn submitted_fences_are_queued() {
    let mut fence = Fence::new(false);
    assert_eq!(
        CommandBuffer::queue_submit(&mut fence, vk::ERROR_DEVICE_LOST),
        Err(DriverError::InvalidData)
    );
    assert!(!fence.is_queued());
    assert_eq!(
        CommandBuffer::queue_submit(&mut fence, vk::SUCCESS),
        Ok(())
    );
    assert!(fence.is_queued());
}

#[test]
fn query_results_are_wide() {
    assert_eq!(results_flags(vk::QUERY_RESULT_WAIT), 0x3);
    assert_eq!(results_u64(vec![1, 2], vk::SUCCESS), Ok(vec![1, 2]));
    assert_eq!(
        results_u64(vec![1], vk::ERROR_DEVICE_LOST),
        Err(DriverError::InvalidData)
    );
    assert_eq!(
        results_u64(vec![1], vk::ERROR_OUT_OF_HOST_MEMORY),
        Err(DriverError::OutOfMemory)
    );
    assert_eq!(
        results_u64(vec![1], vk::NOT_READY),
        Err(DriverError::Unsupported)
    );
    assert_eq!(QueryPoolInfo::default(), QueryPoolInfo::timestamp(1));
    assert_eq!(
        QueryPoolInfo::timestamp(4).query_type,
        vk::QUERY_TYPE_TIMESTAMP
    );
}

#[test]
fn failed_names_leave_the_names_as_they_were() {
    let mut names = ObjectNames::new(true);
    let pending = names
        .begin_set(BUFFER, 5, &"first".to_owned())
        .unwrap()
        .unwrap();
    assert_eq!(pending.metadata_id(), 1);
    assert_eq!(names.finish_set(pending, vk::SUCCESS), Ok(()));
    assert_eq!(names.name(BUFFER, 5).as_deref(), Some("first"));
    assert_eq!(names.name(BUFFER + 1, 5), None);

    let pending = names
        .begin_set(BUFFER, 5, &"second".to_owned())
        .unwrap()
        .unwrap();
    assert_eq!(pending.metadata_id(), 2);
    assert_eq!(names.name(BUFFER, 5).as_deref(), Some("second"));
    assert_eq!(
        names.finish_set(pending, vk::ERROR_OUT_OF_HOST_MEMORY),
        Err(DriverError::OutOfMemory)
    );
    assert_eq!(names.name(BUFFER, 5).as_deref(), Some("first"));

    let pending = names
        .begin_set(BUFFER, 6, &"third".to_owned())
        .unwrap()
        .unwrap();
    assert_eq!(
        names.finish_set(pending, vk::ERROR_DEVICE_LOST),
        Err(DriverError::Unsupported)
    );
    assert_eq!(names.name(BUFFER, 6), None);
}

#[test]
fn failed_clears_leave_the_names_as_they_were() {
    let mut names = ObjectNames::new(true);
    let pending = names
        .begin_set(BUFFER, 5, &"first".to_owned())
        .unwrap()
        .unwrap();
    assert_eq!(names.finish_set(pending, vk::SUCCESS), Ok(()));
    assert!(names.begin_clear(BUFFER, 6).unwrap().is_none());

    let pending = names.begin_clear(BUFFER, 5).unwrap().unwrap();
    assert_eq!(names.name(BUFFER, 5), None);
    assert_eq!(
        names.finish_clear(pending, vk::ERROR_OUT_OF_HOST_MEMORY),
        Err(DriverError::OutOfMemory)
    );
    assert_eq!(names.name(BUFFER, 5).as_deref(), Some("first"));
    names.forget(BUFFER, 5);
    assert_eq!(names.name(BUFFER, 5), None);
}

#[test]
fn names_are_kept_only_where_objects_have_room_for_them() {
    let mut names = ObjectNames::new(false);
    assert!(names
        .begin_set(BUFFER, 5, &"first".to_owned())
        .unwrap()
        .is_none());
    assert_eq!(names.name(BUFFER, 5), None);
    let mut names = ObjectNames::new(true);
    assert!(names.has_free_number());
    assert!(matches!(
        names.begin_set(BUFFER, 0, &"first".to_owned()),
        Err(DriverError::InvalidData)
    ));
    assert!(matches!(
        names.begin_clear(BUFFER, 0),
        Err(DriverError::InvalidData)
    ));
}

#[test]
fn extensions_are_asked_for_once() {
    let info = InstanceInfo::builder()
        .debug(true)
        .extension_names(&["VK_KHR_surface", "VK_A"])
        .build();
    let plan = Instance::plan(
        info,
        &["VK_A", "VK_B"],
        &["VK_EXT_debug_utils"],
        &["VK_LAYER_KHRONOS_validation"],
        &["VK_B"],
    )
    .unwrap();
    assert_eq!(
        plan.extension_names,
        ["VK_KHR_surface", "VK_A", "VK_B", "VK_EXT_debug_utils"]
    );
    assert_eq!(plan.layer_names, ["VK_LAYER_KHRONOS_validation"]);
    assert!(plan.khr_surface && plan.validates);
    assert_eq!(plan.api_version, ash::vk::API_VERSION_1_3);

    let plan = Instance::plan(InstanceInfo::default(), &[], &["VK_D"], &["L"], &[]).unwrap();
    assert!(plan.extension_names.is_empty() && plan.layer_names.is_empty());
    assert!(!plan.khr_surface && !plan.validates);
    assert!(matches!(
        Instance::plan(info, &[], &[], &[], &[]),
        Err(DriverError::Unsupported)
    ));
}

#[test]
fn displays_need_their_surface_extension() {
    assert_eq!(
        Instance::display_extension_names(DisplayPlatform::Xcb),
        Ok(vec!["VK_KHR_surface", "VK_KHR_xcb_surface"])
    );
    assert_eq!(
        Instance::display_extension_names(DisplayPlatform::AppKit),
        Ok(vec!["VK_KHR_surface", "VK_EXT_metal_surface"])
    );
    assert_eq!(
        Instance::display_extension_names(DisplayPlatform::Other),
        Err(DriverError::Unsupported)
    );
    assert_eq!(Instance::surface_entry_points().len(), 5);
    assert!(Instance::has_vk_khr_surface(&vec![true, true]));
    assert!(!Instance::has_vk_khr_surface(&vec![true, false]));
}

#[test]
fn imported_instances_have_the_version_of_the_loader() {
    let info = Instance::imported(1, Ok(Some(ash::vk::API_VERSION_1_2))).unwrap();
    assert_eq!(info.api_version, ApiVersion::Vulkan12);
    assert!(!info.debug);
    let info = Instance::imported(1, Ok(None)).unwrap();
    assert_eq!(info.api_version, Instance::DEFAULT_API_VERSION);
    assert!(matches!(
        Instance::imported(0, Ok(None)),
        Err(DriverError::InvalidData)
    ));
    assert!(matches!(
        Instance::imported(1, Ok(Some(ash::vk::API_VERSION_1_1))),
        Err(DriverError::Unsupported)
    ));
    assert!(matches!(
        Instance::imported(1, Err(vk::ERROR_OUT_OF_HOST_MEMORY)),
        Err(DriverError::OutOfMemory)
    ));
    assert!(matches!(
        Instance::imported(1, Err(vk::ERROR_VALIDATION_FAILED_EXT)),
        Err(DriverError::InvalidData)
    ));
}

#[test]
fn failed_messengers_take_the_instance_with_them() {
    let mut state = InstanceState::created();
    assert_eq!(
        state.messenger_created(vk::ERROR_OUT_OF_HOST_MEMORY),
        Err(DriverError::Unsupported)
    );
    assert!(state.teardown(false).is_empty());
}

#[test]
fn old_physical_devices_are_not_accepted() {
    let info = InstanceInfo::default();
    let version = ash::vk::make_api_version(0, 1, 3, 250);
    assert!(Instance::accepts_physical_device(info, version, false));
    assert!(!Instance::accepts_physical_device(
        info,
        ash::vk::API_VERSION_1_2,
        true
    ));
    let debug = info.into_builder().debug(true).build();
    assert!(!Instance::accepts_physical_device(debug, version, false));
    assert!(Instance::accepts_physical_device(debug, version, true));
}

#[test]
fn variables_are_set_unless_they_deny_it() {
    for value in ["", "0", "false", "False", "FALSE"] {
        assert!(!Instance::var_value_is_set(value.to_owned()), "{value}");
    }
    for value in ["1", "true", "no", " "] {
        assert!(Instance::var_value_is_set(value.to_owned()), "{value}");
    }
}

#[test]
fn versions_split_into_their_parts() {
    let parsed = ApiVersion::try_parse_vk_api_version(ash::vk::make_api_version(2, 4, 17, 1023));
    let error = parsed.unwrap_err();
    assert_eq!(
        (error.variant, error.major, error.minor, error.patch),
        (2, 4, 17, 1023)
    );
    assert!(error.to_text().contains("4.17.1023-2"));
    for patch in [0, 7, 4095] {
        assert_eq!(
            ApiVersion::try_parse_vk_api_version(ash::vk::make_api_version(0, 1, 2, patch)),
            Ok(ApiVersion::Vulkan12)
        );
    }
    let version = ApiVersion::Vulkan13;
    assert_eq!(
        (
            version.variant(),
            version.major(),
            version.minor(),
            version.patch()
        ),
        (0, 1, 3, 0)
    );
    assert!(version.at_least(ApiVersion::Vulkan12));
    assert!(!ApiVersion::Vulkan12.at_least(version));
}

#[test]
fn callbacks_log_and_park_as_they_are_asked_to() {
    let env = CallbackEnvironment {
        ignore_info: true,
        ignore_verbose: false,
        ignore_warning: false,
        main_thread: false,
        panicking: false,
        skip_park: false,
        terminal: true,
    };
    let text = |text: &str| CallbackText {
        lossy: text.to_owned(),
        exact: Some(text.to_owned()),
    };
    let data = CallbackData {
        message: Some(text("message")),
        message_id_name: Some(text("Loader Message")),
    };
    let plan = Instance::debug_callback(
        vk::DEBUG_UTILS_MESSAGE_SEVERITY_ERROR,
        Some(&data),
        false,
        env,
    );
    assert!(plan.record.is_none() && plan.log_id.is_none());
    assert_eq!(plan.log, Some((LogLevel::Error, "message".to_owned())));
    assert!(plan.warn_thread);
    assert_eq!(plan.end, CallbackEnd::Park);

    let quiet = CallbackEnvironment {
        terminal: false,
        main_thread: true,
        ..env
    };
    let plan = Instance::debug_callback(
        vk::DEBUG_UTILS_MESSAGE_SEVERITY_ERROR,
        Some(&data),
        false,
        quiet,
    );
    assert!(!plan.warn_thread);
    assert_eq!(plan.end, CallbackEnd::SkippedWithoutTerminal);

    let plan = Instance::debug_callback(
        vk::DEBUG_UTILS_MESSAGE_SEVERITY_INFO,
        Some(&data),
        true,
        env,
    );
    assert!(plan.log.is_none() && plan.record.is_none());
    assert_eq!(plan.end, CallbackEnd::Return);

    let broken = CallbackData {
        message: Some(CallbackText {
            lossy: "m".to_owned(),
            exact: None,
        }),
        message_id_name: Some(text("VUID-1")),
    };
    let plan = Instance::debug_callback(
        vk::DEBUG_UTILS_MESSAGE_SEVERITY_VERBOSE,
        Some(&broken),
        true,
        env,
    );
    assert_eq!(plan.log_id.as_deref(), Some("VUID-1"));
    assert_eq!(
        plan.log,
        Some((
            LogLevel::Debug,
            "<invalid Vulkan validation message>".to_owned()
        ))
    );
}
