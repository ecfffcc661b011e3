use sonar::audio::{
    caches_config, reuses_cached_config, channel_to_use, find_device, input_device_listing, is_microphone_access_denied, is_no_input_device_error,
    microphone_error_kind, output_device_listing, preferred_config, visualizer_window, ConfigRange,
    MicrophoneErrorKind, SampleFormat,
};

#[test]
fn duplicate_input_names_get_numbered_ids() {
    let names: Vec<String> = ["Mic", "USB", "Mic", "Mic"].iter().map(|n| n.to_string()).collect();
    let list = input_device_listing(&names, Some("USB"));
    let ids: Vec<&str> = list.iter().map(|d| d.id.as_str()).collect();
    assert_eq!(ids, vec!["Mic", "USB", "Mic#2", "Mic#3"]);
    assert!(list[1].is_default && !list[0].is_default);
    assert_eq!(find_device(&list, "Mic#3"), Ok(3));
    assert_eq!(
        find_device(&list, "Mic#4"),
        Err("input device id 'Mic#4' is unavailable; enumerate devices again and select a valid id".to_owned())
    );
    let outputs = output_device_listing(&names, None);
    assert_eq!(outputs[3].id, "3");
    assert!(!outputs[0].is_default);
}

#[test]
fn microphone_errors_are_classified() {
    assert!(is_microphone_access_denied("Access is denied. (0x80070005)"));
    assert!(is_microphone_access_denied("PERMISSION DENIED"));
    assert!(!is_microphone_access_denied("device busy"));
    assert!(is_no_input_device_error("No input device found"));
    assert!(is_no_input_device_error("Failed to fetch preferred config: CoreAudio error"));
    assert!(!is_no_input_device_error("Failed to fetch preferred config: ALSA error"));
    assert_eq!(microphone_error_kind("permission denied"), MicrophoneErrorKind::PermissionDenied);
    assert_eq!(microphone_error_kind("other"), MicrophoneErrorKind::Other);
}

#[test]
fn preferred_configuration_favours_float_then_i16() {
    let ranges = vec![
        ConfigRange { min_sample_rate: 8_000, max_sample_rate: 48_000, format: SampleFormat::U8 },
        ConfigRange { min_sample_rate: 8_000, max_sample_rate: 22_050, format: SampleFormat::F32 },
        ConfigRange { min_sample_rate: 44_100, max_sample_rate: 48_000, format: SampleFormat::I16 },
        ConfigRange { min_sample_rate: 44_100, max_sample_rate: 48_000, format: SampleFormat::I16 },
        ConfigRange { min_sample_rate: 16_000, max_sample_rate: 48_000, format: SampleFormat::I32 },
    ];
    assert_eq!(preferred_config(&ranges, 48_000), Some(2));
    assert_eq!(preferred_config(&ranges, 16_000), Some(1));
    assert_eq!(preferred_config(&ranges, 96_000), None);
    assert!(SampleFormat::I8.is_capturable());
    assert!(!SampleFormat::F64.is_capturable());
}

#[test]
fn capture_channel_and_meter_window() {
    assert_eq!(channel_to_use(Some(1), 2), Some(1));
    assert_eq!(channel_to_use(Some(2), 2), None);
    assert_eq!(channel_to_use(None, 2), None);
    assert_eq!(visualizer_window(48_000), 2048);
    assert_eq!(visualizer_window(16_000), 512);
    assert_eq!(visualizer_window(11_025), 256);
    assert_eq!(visualizer_window(23_025), 512);
    assert_eq!(visualizer_window(0), 256);
}

#[test]
fn stream_configs_are_cached_per_named_device() {
    assert!(reuses_cached_config("USB Mic", Some("USB Mic")));
    assert!(!reuses_cached_config("USB Mic", Some("Built-in")));
    assert!(!reuses_cached_config("", Some("")));
    assert!(!reuses_cached_config("USB Mic", None));
    assert!(caches_config(false, "USB Mic"));
    assert!(!caches_config(true, "USB Mic"));
    assert!(!caches_config(false, ""));
}
