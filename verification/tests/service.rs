use sonar::catalog::CatalogModel;
use sonar::models::{DiskState, ModelStatus};
use sonar::service::{
    inference_config, keeps_progress, non_empty, plan_delivery, recording_buffer_ms, selected_model, should_deliver,
    start_plan, Delivery, StartPlan,
};
use sonar::settings::{Accelerator as SettingsAccelerator, AutoSubmitKey, OutputMethod, OutputSettings, Settings};
use sonar::transcription::{Accelerator, ComputeDevice};

fn status(id: &str, downloaded: bool, downloading: bool) -> ModelStatus {
    let model = CatalogModel {
        id: id.to_owned(),
        name: id.to_owned(),
        description: String::new(),
        repo_id: "r".to_owned(),
        filename: "f".to_owned(),
        size_bytes: 1,
        languages: Vec::new(),
        supports_streaming: false,
        recommended: false,
    };
    let disk = DiskState { model_len: if downloaded { Some(1) } else { None }, partial_len: None };
    ModelStatus::of(&model, &disk, downloading)
}

#[test]
fn the_configured_model_wins_when_downloaded() {
    let models = vec![status("tiny", true, false), status("base", false, true), status("small", true, false)];
    assert_eq!(selected_model(&models, "small"), Some(2));
    assert_eq!(selected_model(&models, "base"), Some(0));
    assert_eq!(selected_model(&models[1..2], "base"), None);
    assert!(keeps_progress("base", &models));
    assert!(!keeps_progress("tiny", &models));
}

#[test]
fn session_settings_are_cleaned() {
    assert_eq!(non_empty("  "), None);
    assert_eq!(non_empty(" mic "), Some(" mic ".to_owned()));
    assert_eq!(recording_buffer_ms(-3), 0);
    assert_eq!(recording_buffer_ms(250), 250);
    let mut settings = Settings::default();
    settings.inference.accelerator = SettingsAccelerator::Gpu;
    let config = inference_config(&settings, &[]).expect("automatic device");
    assert_eq!(config.accelerator, Accelerator::Gpu);
    assert_eq!(config.gpu_device, 0);
    settings.inference.gpu_device_id = "gone".to_owned();
    assert_eq!(
        inference_config(&settings, &[]),
        Err("selected compute device 'gone' is unavailable".to_owned())
    );
    let devices = vec![ComputeDevice { id: "gone".to_owned(), index: 2, name: String::new(), kind: String::new(), memory: 0 }];
    assert_eq!(inference_config(&settings, &devices).map(|c| c.gpu_device), Ok(2));
}

#[test]
fn delivery_follows_output_settings() {
    let paste = OutputSettings {
        method: OutputMethod::Paste,
        append_trailing_space: true,
        auto_submit: true,
        auto_submit_key: AutoSubmitKey::ControlEnter,
    };
    match plan_delivery("hello", &paste) {
        Delivery::Paste { text, submit_key } => {
            assert_eq!(text, "hello ");
            assert_eq!(submit_key, Some("ctrl_enter"));
        },
        _ => panic!("expected paste"),
    }
    let clipboard = OutputSettings { method: OutputMethod::Clipboard, append_trailing_space: false, ..paste };
    match plan_delivery("hello", &clipboard) {
        Delivery::Clipboard { text } => assert_eq!(text, "hello"),
        _ => panic!("expected clipboard"),
    }
    let nothing = OutputSettings { method: OutputMethod::Nothing, ..paste };
    assert!(matches!(plan_delivery("hello", &nothing), Delivery::Nothing));
    assert!(should_deliver(&Ok("x".to_owned())));
    assert!(!should_deliver(&Ok(" \n".to_owned())));
    assert!(!should_deliver(&Err("e".to_owned())));
}

#[test]
fn start_requests_pick_a_model_or_explain_why_not() {
    let models = vec![status("tiny", true, false), status("base", false, false), status("small", true, false)];
    assert!(matches!(start_plan(true, &models, "small"), StartPlan::AlreadyRecording));
    assert!(matches!(start_plan(false, &models, "small"), StartPlan::Record(2)));
    assert!(matches!(start_plan(false, &models, "base"), StartPlan::Record(0)));
    match start_plan(false, &models[1..2], "base") {
        StartPlan::NoModel(message) => {
            assert_eq!(message, "No speech model installed. Download one from the Models page.")
        },
        _ => panic!("no model is downloaded"),
    }
}
