use ash::vk as ash_vk;
use vk_driver::instance::{
    ApiVersion, CallbackData, CallbackEnd, CallbackEnvironment, CallbackText, Instance,
    InstanceInfo, InstanceState, Teardown, ValidationError, ValidationReport,
};
use vk_driver::vk;

fn text(bytes: &[u8]) -> CallbackText {
    CallbackText {
        lossy: String::from_utf8_lossy(bytes).into_owned(),
        exact: String::from_utf8(bytes.to_vec()).ok(),
    }
}

fn environment(panicking: bool) -> CallbackEnvironment {
    CallbackEnvironment {
        ignore_info: false,
        ignore_verbose: false,
        ignore_warning: false,
        main_thread: true,
        panicking,
        skip_park: true,
        terminal: false,
    }
}

fn invoke_callback(
    report: &mut ValidationReport,
    severity: u32,
    message_id_name: Option<&[u8]>,
    message: &[u8],
) {
    let data = CallbackData {
        message: Some(text(message)),
        message_id_name: message_id_name.map(text),
    };
    let plan = Instance::debug_callback(severity, Some(&data), true, environment(true));
    assert_eq!(plan.end, CallbackEnd::Return);
    if let Some(error) = plan.record {
        report.record(error);
    }
}

#[test]
fn errors_are_recorded_without_a_logger() {
    let mut report = ValidationReport::default();
    invoke_callback(
        &mut report,
        vk::DEBUG_UTILS_MESSAGE_SEVERITY_ERROR,
        Some(b"VUID-no-logger"),
        b"recorded without diagnostic output",
    );
    assert_eq!(report.errors().len(), 1);
    assert_eq!(
        report.errors()[0].message_id_name.as_deref(),
        Some("VUID-no-logger")
    );
}

#[test]
fn reports_isolate_and_copy_errors_with_optional_ids() {
    let mut first = ValidationReport::default();
    let mut second = ValidationReport::default();
    let empty_snapshot = first.errors();

    {
        let name = b"VUID-owned-name".to_vec();
        let message = b"owned diagnostic".to_vec();
        invoke_callback(
            &mut first,
            vk::DEBUG_UTILS_MESSAGE_SEVERITY_ERROR,
            Some(&name),
            &message,
        );
        invoke_callback(
            &mut second,
            vk::DEBUG_UTILS_MESSAGE_SEVERITY_ERROR,
            None,
            b"second instance",
        );
        for severity in [
            vk::DEBUG_UTILS_MESSAGE_SEVERITY_WARNING,
            vk::DEBUG_UTILS_MESSAGE_SEVERITY_INFO,
            vk::DEBUG_UTILS_MESSAGE_SEVERITY_VERBOSE,
        ] {
            invoke_callback(&mut first, severity, Some(&name), b"not an error");
        }
    }

    let expected = vec![ValidationError {
        message_id_name: Some("VUID-owned-name".to_owned()),
        message: "owned diagnostic".to_owned(),
    }];
    assert_eq!(first.errors(), expected);
    assert_eq!(first.errors(), expected);
    assert!(empty_snapshot.is_empty());
    let mut snapshot = first.errors();
    snapshot[0].message.clear();
    assert_eq!(first.errors(), expected);
    assert_eq!(
        second.errors(),
        vec![ValidationError {
            message_id_name: None,
            message: "second instance".to_owned(),
        }]
    );
}

#[test]
fn reports_keep_errors_in_order() {
    let error = |message: &str| ValidationError {
        message_id_name: None,
        message: message.to_owned(),
    };
    let mut report = ValidationReport::default();
    for message in ["one", "two", "one"] {
        report.record(error(message));
    }
    assert_eq!(
        report.errors(),
        [error("one"), error("two"), error("one")]
    );
    report.record(error("three"));
    assert_eq!(report.errors().len(), 4);
    assert_eq!(report.errors()[3], error("three"));
}

#[test]
fn callback_handles_null_and_non_utf8_data() {
    let mut report = ValidationReport::default();
    let severity = vk::DEBUG_UTILS_MESSAGE_SEVERITY_ERROR;

    let plan = Instance::debug_callback(severity, None, true, environment(false));
    assert!(plan.record.is_none());
    assert_eq!(plan.end, CallbackEnd::Return);

    let data = CallbackData {
        message: None,
        message_id_name: None,
    };
    let plan = Instance::debug_callback(severity, Some(&data), true, environment(true));
    report.record(plan.record.unwrap());
    let plan = Instance::debug_callback(severity, Some(&data), false, environment(true));
    assert!(plan.record.is_none());
    invoke_callback(&mut report, severity, Some(b"id\xff"), b"message\xff");

    assert_eq!(
        report.errors(),
        vec![
            ValidationError {
                message_id_name: None,
                message: "<missing Vulkan validation message>".to_owned(),
            },
            ValidationError {
                message_id_name: Some("id\u{fffd}".to_owned()),
                message: "message\u{fffd}".to_owned(),
            },
        ]
    );
}

#[test]
fn report_lives_through_messenger_and_instance_destruction() {
    let mut report = ValidationReport::default();
    let mut state = InstanceState::created();
    assert!(state.messenger_created(vk::SUCCESS).is_ok());
    let destructions = state.teardown(false);
    for _ in &destructions {
        invoke_callback(
            &mut report,
            vk::DEBUG_UTILS_MESSAGE_SEVERITY_ERROR,
            None,
            b"destruction diagnostic",
        );
    }
    assert_eq!(destructions, [Teardown::Messenger, Teardown::Instance]);
    assert_eq!(report.errors().len(), 2);
    assert!(state.teardown(false).is_empty());
}

#[test]
fn skipped_teardown_retains_callback_storage() {
    let mut report = ValidationReport::default();
    let mut state = InstanceState::created();
    assert!(state.messenger_created(vk::SUCCESS).is_ok());
    let before = state;
    assert!(state.teardown(true).is_empty());
    assert_eq!(state, before);
    invoke_callback(
        &mut report,
        vk::DEBUG_UTILS_MESSAGE_SEVERITY_ERROR,
        None,
        b"after skipped teardown",
    );
    assert_eq!(report.errors()[0].message, "after skipped teardown");
}

#[test]
fn nondebug_and_imported_instances_have_no_report() {
    let mut instance = InstanceState::created();
    let mut imported = InstanceState::imported();
    assert!(!instance.debug_utils);
    assert!(!imported.debug_utils);
    assert!(imported.teardown(false).is_empty());
    assert_eq!(instance.teardown(false), [Teardown::Instance]);
}

#[test]
fn api_versions_match() {
    assert_eq!(
        ApiVersion::Vulkan12.to_vk_api_version(),
        ash_vk::API_VERSION_1_2
    );
    assert_eq!(
        ApiVersion::Vulkan13.to_vk_api_version(),
        ash_vk::API_VERSION_1_3
    );
}

#[test]
fn api_versions_from() {
    assert_eq!(
        ApiVersion::try_parse_vk_api_version(ash_vk::API_VERSION_1_2).unwrap(),
        ApiVersion::Vulkan12
    );
    assert_eq!(
        ApiVersion::try_parse_vk_api_version(ash_vk::API_VERSION_1_3).unwrap(),
        ApiVersion::Vulkan13
    );
}

#[test]
fn default_api_version_matches_instance_info_default() {
    assert_eq!(
        Instance::DEFAULT_API_VERSION,
        InstanceInfo::default().api_version
    );
}

#[test]
fn default_api_version_matches_api_version_default() {
    assert_eq!(Instance::DEFAULT_API_VERSION, ApiVersion::default());
}

#[test]
fn invalid_api_versions_are_rejected() {
    let parse = ApiVersion::try_parse_vk_api_version;

    assert!(parse(ash_vk::API_VERSION_1_1).is_err());
    assert!(parse(ash_vk::make_api_version(0, 2, 0, 0)).is_err());
    assert!(parse(ash_vk::make_api_version(1, 1, 9, 0)).is_err());
    assert!(parse(ash_vk::make_api_version(1, 4, 2, 0)).is_err());
    assert!(parse(ash_vk::make_api_version(1, 2, 0, 1)).is_err());
    assert!(parse(ash_vk::make_api_version(1, 3, 0, 1)).is_err());
}
