use meetily_audio::devices::configuration::{AudioDevice, DeviceNameError, DeviceType};
use meetily_audio::devices::discovery::{
    merge_host_devices, resolve_audio_device, select_audio_device, DeviceSelectionError,
};
use meetily_audio::devices::windows::{
    configure_windows_audio, default_windows_audio_device, default_windows_endpoint_id,
    enumerate_cpal_devices_with_ids, find_cpal_device_by_native_id, get_windows_device,
    preferred_config, ConfigChoice, ConfigError, DefaultEndpoints, LookupError, LookupStep,
    NativeEndpoint, SampleEncoding, SupportedConfig,
};

fn output(name: &str, id: &str) -> AudioDevice {
    AudioDevice::with_native_id(name.to_string(), DeviceType::Output, id.to_string())
}

#[test]
fn native_id_selects_the_exact_same_named_endpoint() {
    let selected = select_audio_device(
        vec![
            output("Headphones", "endpoint-a"),
            output("Headphones", "endpoint-b"),
        ],
        "endpoint-b",
        DeviceType::Output,
    )
    .expect("native ID must resolve");

    assert_eq!(selected.native_id.as_deref(), Some("endpoint-b"));
}

#[test]
fn legacy_name_is_rejected_when_same_named_endpoints_exist() {
    let error = select_audio_device(
        vec![
            output("Headphones", "endpoint-a"),
            output("Headphones", "endpoint-b"),
        ],
        "Headphones (output)",
        DeviceType::Output,
    )
    .expect_err("same-name legacy selection must not guess");

    assert!(error.message("Headphones (output)").contains("ambiguous"));
}

#[test]
fn endpoint_from_the_wrong_flow_is_not_accepted() {
    let error = select_audio_device(
        vec![output("Headphones", "endpoint-a")],
        "endpoint-a",
        DeviceType::Input,
    )
    .expect_err("output endpoint must not satisfy an input request");

    assert!(error.message("endpoint-a").contains("not specified"));
}

#[test]
fn a_unique_name_is_selected() {
    let selected = select_audio_device(
        vec![output("Speakers", "a"), output("Headphones", "b")],
        "Headphones (output)",
        DeviceType::Output,
    )
    .unwrap();
    assert_eq!(selected.native_id.as_deref(), Some("b"));
}

#[test]
fn a_name_of_the_other_direction_is_the_wrong_type() {
    let devices = vec![output("Speakers", "a")];
    let error = select_audio_device(devices, "Speakers (output)", DeviceType::Input).unwrap_err();
    assert_eq!(error, DeviceSelectionError::WrongType);
    assert_eq!(
        error.message("Speakers (output)"),
        "Audio device selection has the wrong device type: Speakers (output)"
    );
}

#[test]
fn a_name_that_no_endpoint_has_is_not_active() {
    let error = select_audio_device(vec![], "Speakers (output)", DeviceType::Output).unwrap_err();
    assert_eq!(error, DeviceSelectionError::NotActive);
    assert_eq!(
        error.message("Speakers (output)"),
        "Audio device is not active: Speakers (output)"
    );
}

#[test]
fn an_empty_selection_is_no_name() {
    let error = select_audio_device(vec![], "  ", DeviceType::Output).unwrap_err();
    assert_eq!(error, DeviceSelectionError::Name(DeviceNameError::Empty));
}

#[test]
fn display_text_is_taken_apart() {
    let device = AudioDevice::from_name("My Mic (input)").unwrap();
    assert_eq!(device.name, "My Mic");
    assert_eq!(device.device_type, DeviceType::Input);
    assert!(device.native_id.is_none());
    assert_eq!(
        AudioDevice::from_name("My Mic").unwrap_err(),
        DeviceNameError::TypeNotSpecified
    );
}

#[test]
fn listing_errors_are_passed_on() {
    let listed: Result<Vec<AudioDevice>, String> = Err("host is gone".to_string());
    assert_eq!(
        resolve_audio_device(listed, "endpoint-a", DeviceType::Input).unwrap_err(),
        "host is gone"
    );
    let found = resolve_audio_device(Ok(vec![output("S", "id-1")]), "id-1", DeviceType::Output);
    assert_eq!(found.unwrap().name, "S");
    assert_eq!(
        resolve_audio_device(Ok(vec![]), "X (input)", DeviceType::Input).unwrap_err(),
        "Audio device is not active: X (input)"
    );
}

#[test]
fn host_devices_are_added_once() {
    let mut devices = vec![output("Speakers", "a")];
    merge_host_devices(
        &mut devices,
        vec!["Speakers".to_string(), "Monitor".to_string(), "Monitor".to_string()],
    );
    let names: Vec<&str> = devices.iter().map(|device| device.name.as_str()).collect();
    assert_eq!(names, vec!["Speakers", "Monitor"]);
}

fn endpoint(id: &str, device_type: DeviceType) -> NativeEndpoint {
    NativeEndpoint { id: id.to_string(), device_type }
}

#[test]
fn windows_devices_carry_their_endpoint_ids() {
    let names = vec![
        Ok("Mic".to_string()),
        Ok("Headset".to_string()),
        Err("no name".to_string()),
    ];
    let endpoints = vec![
        endpoint("in-1", DeviceType::Input),
        endpoint("in-2", DeviceType::Input),
        endpoint("out-1", DeviceType::Output),
    ];
    let inputs = enumerate_cpal_devices_with_ids(&names, &endpoints, DeviceType::Input).unwrap();
    assert_eq!(inputs.len(), 2);
    assert_eq!(inputs[1].native_id.as_deref(), Some("in-2"));
    assert!(enumerate_cpal_devices_with_ids(&names, &endpoints, DeviceType::Output).is_err());
    let two = vec![Ok("Mic".to_string()), Ok("Headset".to_string())];
    assert!(enumerate_cpal_devices_with_ids(&two, &endpoints, DeviceType::Input).is_err());
    let readable = vec![
        Ok("Mic".to_string()),
        Ok("Headset".to_string()),
        Ok("Speakers".to_string()),
    ];
    let all = configure_windows_audio(&readable, &endpoints).unwrap();
    assert_eq!(all.len(), 3);
    assert!(all.iter().all(|d| d.native_id.is_some()));
    let position = find_cpal_device_by_native_id(&endpoints, 3, &all[2]).unwrap();
    assert_eq!(endpoints[position].id, all[2].native_id.clone().unwrap());
    let speakers = output("Speakers", "out-1");
    assert_eq!(
        find_cpal_device_by_native_id(&endpoints, 2, &speakers).unwrap_err().message(),
        "Windows audio endpoint mapping changed while binding endpoint: out-1"
    );
    let gone = output("Speakers", "out-9");
    assert_eq!(
        find_cpal_device_by_native_id(&endpoints, 3, &gone).unwrap_err().message(),
        "Windows audio endpoint is no longer active: out-9"
    );
    let unnamed = AudioDevice::new("Speakers".to_string(), DeviceType::Output);
    assert!(find_cpal_device_by_native_id(&endpoints, 3, &unnamed)
        .unwrap_err()
        .message()
        .contains("has no native endpoint ID"));
}

#[test]
fn windows_default_device_has_the_default_identifier() {
    let names = vec![Ok("Mic".to_string()), Ok("Speakers".to_string())];
    let endpoints = vec![
        endpoint("in-1", DeviceType::Input),
        endpoint("out-1", DeviceType::Output),
    ];
    let defaults = DefaultEndpoints {
        capture: Ok("in-1".to_string()),
        render: Err(LookupError {
            step: LookupStep::GetDefault,
            error: "no endpoint".to_string(),
        }),
    };
    assert_eq!(
        default_windows_endpoint_id(DeviceType::Input, &defaults).unwrap(),
        "in-1"
    );
    let device =
        default_windows_audio_device(&names, &endpoints, &defaults, DeviceType::Input).unwrap();
    assert_eq!(device.native_id.as_deref(), Some("in-1"));
    assert!(device.default_role.is_some());
    assert_eq!(
        default_windows_audio_device(&names, &endpoints, &defaults, DeviceType::Output)
            .unwrap_err()
            .message(),
        "Windows default audio endpoint is unavailable: no endpoint"
    );
    let stale = DefaultEndpoints {
        capture: Ok("in-9".to_string()),
        render: Err(LookupError { step: LookupStep::ReadId, error: "x".to_string() }),
    };
    assert_eq!(
        default_windows_audio_device(&names, &endpoints, &stale, DeviceType::Input)
            .unwrap_err()
            .message(),
        "Default Windows audio endpoint is no longer active: in-9"
    );
    assert_eq!(
        default_windows_endpoint_id(DeviceType::Output, &stale).unwrap_err().message(),
        "Failed to read default Windows audio endpoint ID: x"
    );
}

#[test]
fn stereo_float_configurations_are_preferred() {
    let mono = SupportedConfig { encoding: SampleEncoding::F32, channels: 1 };
    let other = SupportedConfig { encoding: SampleEncoding::Other, channels: 2 };
    let stereo = SupportedConfig { encoding: SampleEncoding::F32, channels: 2 };
    assert_eq!(preferred_config(&vec![other, mono, stereo]), 2);
    assert_eq!(preferred_config(&vec![other, mono]), 1);
    assert_eq!(preferred_config(&vec![other]), 0);
}

#[test]
fn a_device_without_configurations_cannot_be_used() {
    assert!(matches!(
        get_windows_device(DeviceType::Output, true, true, &None),
        Ok(ConfigChoice::Default)
    ));
    assert!(matches!(
        get_windows_device(DeviceType::Input, true, false, &Some(vec![])),
        Err(ConfigError::NoInputConfig)
    ));
    assert!(matches!(
        get_windows_device(DeviceType::Output, true, false, &None),
        Err(ConfigError::NotFound)
    ));
    assert!(matches!(
        get_windows_device(DeviceType::Input, false, true, &None),
        Err(ConfigError::NotFound)
    ));
    let stereo = SupportedConfig { encoding: SampleEncoding::F32, channels: 2 };
    assert!(matches!(
        get_windows_device(DeviceType::Output, true, true, &Some(vec![stereo])),
        Ok(ConfigChoice::Supported(0))
    ));
}
