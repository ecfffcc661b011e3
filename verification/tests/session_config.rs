use sonar::pipeline::{HostSessionConfig, SessionConfig};
use sonar::transcription::{Accelerator, ComputeDevice, InferenceConfig};

fn host(threshold: f64, accelerator: &str, gpu: &str) -> HostSessionConfig {
    HostSessionConfig {
        input_device_id: Some("  USB Mic  ".to_owned()),
        custom_words: vec![" Verus ".to_owned(), "   ".to_owned(), "Sonar".to_owned()],
        filler_word_removal: true,
        custom_filler_words: vec!["".to_owned(), " like ".to_owned()],
        word_correction_threshold_bits: threshold.to_bits(),
        accelerator: accelerator.to_owned(),
        gpu_device_id: gpu.to_owned(),
    }
}

fn devices() -> Vec<ComputeDevice> {
    vec![ComputeDevice {
        id: "vk:0".to_owned(),
        index: 2,
        name: "GPU".to_owned(),
        kind: "gpu".to_owned(),
        memory: 8,
    }]
}

#[test]
fn host_session_config_is_cleaned() {
    let config = SessionConfig::from_host(host(0.18, " GPU ", " vk:0 "), &devices()).expect("valid config");
    assert_eq!(config.input_device_id, Some("USB Mic".to_owned()));
    assert_eq!(config.custom_words, vec!["Verus".to_owned(), "Sonar".to_owned()]);
    assert_eq!(config.custom_filler_words, vec!["like".to_owned()]);
    assert!(config.filler_word_removal);
    assert_eq!(f64::from_bits(config.word_correction_threshold_bits), 0.18);
    assert_eq!(config.inference, InferenceConfig { accelerator: Accelerator::Gpu, gpu_device: 2 });
    let automatic = SessionConfig::from_host(host(0.0, "auto", "  "), &[]).expect("automatic device");
    assert_eq!(automatic.inference, InferenceConfig { accelerator: Accelerator::Auto, gpu_device: 0 });
    let mut blank_mic = host(1.0, "cpu", "");
    blank_mic.input_device_id = Some("   ".to_owned());
    assert_eq!(SessionConfig::from_host(blank_mic, &[]).expect("valid").input_device_id, None);
}

#[test]
fn host_session_config_errors_come_in_order() {
    let message = "wordCorrectionThreshold must be a finite number between 0 and 1";
    for bad in [1.5, -0.25, f64::NAN, f64::INFINITY] {
        assert_eq!(SessionConfig::from_host(host(bad, "cuda", "gone"), &[]).err(), Some(message.to_owned()));
    }
    assert!(SessionConfig::from_host(host(-0.0, "auto", ""), &[]).is_ok());
    assert_eq!(
        SessionConfig::from_host(host(0.5, "cuda", "gone"), &[]).err(),
        Some("invalid accelerator 'cuda'; expected auto, cpu, or gpu".to_owned())
    );
    assert_eq!(
        SessionConfig::from_host(host(0.5, "cpu", " gone "), &devices()).err(),
        Some("selected compute device 'gone' is unavailable".to_owned())
    );
}
