use sonar::audio::input_device_listing;
use sonar::catalog::CatalogModel;
use sonar::models::{DiskState, ModelStatus};
use sonar::pages::{
    default_model_label, forget_removed_model, megabytes_label, microphone_label, model_action, model_title,
    next_default_model, next_history_limit, next_microphone, next_recording_buffer, record_button,
    recording_buffer_label, streaming_label, terms_label, token_label, ModelAction,
};
use sonar::session::RecordingState;
use sonar::settings::{Accelerator, GeneralSettings, ModelUnloadTimeout, OutputMethod};

fn status(id: &str, name: &str, downloaded: bool, downloading: bool, recommended: bool) -> ModelStatus {
    let model = CatalogModel {
        id: id.to_owned(),
        name: name.to_owned(),
        description: String::new(),
        repo_id: "r".to_owned(),
        filename: "f".to_owned(),
        size_bytes: 7,
        languages: Vec::new(),
        supports_streaming: false,
        recommended,
    };
    let disk = DiskState { model_len: if downloaded { Some(7) } else { None }, partial_len: None };
    ModelStatus::of(&model, &disk, downloading)
}

#[test]
fn record_button_follows_the_state() {
    let idle = record_button(RecordingState::Idle);
    assert_eq!((idle.caption, idle.label, idle.stops), ("Press to start speaking", "MIC", false));
    let starting = record_button(RecordingState::Starting);
    assert_eq!((starting.caption, starting.label), ("Starting microphone...", "..."));
    let recording = record_button(RecordingState::Recording);
    assert_eq!((recording.caption, recording.label, recording.stops), ("Listening... press to stop", "STOP", true));
    let transcribing = record_button(RecordingState::Transcribing);
    assert_eq!((transcribing.caption, transcribing.label, transcribing.stops), ("Transcribing...", "...", false));
}

#[test]
fn model_cards_offer_one_action() {
    assert_eq!(model_action(&status("a", "A", true, true, false)), ModelAction::Cancel);
    assert_eq!(model_action(&status("a", "A", true, false, false)), ModelAction::Remove);
    assert_eq!(model_action(&status("a", "A", false, false, false)), ModelAction::Download);
    assert_eq!(model_title(&status("a", "Whisper Base", false, false, true)), "Whisper Base  Recommended");
    assert_eq!(model_title(&status("a", "Whisper Base", false, false, false)), "Whisper Base");
    assert_eq!(streaming_label(true), "Live streaming");
    assert_eq!(streaming_label(false), "Transcribes on stop");
}

#[test]
fn sizes_below_a_gigabyte_are_whole_megabytes() {
    assert_eq!(megabytes_label(147_951_465), Some("147 MB".to_owned()));
    assert_eq!(megabytes_label(999_999_999), Some("999 MB".to_owned()));
    assert_eq!(megabytes_label(0), Some("0 MB".to_owned()));
    assert_eq!(megabytes_label(1_000_000_000), None);
}

#[test]
fn removing_the_default_model_clears_it() {
    let mut general = GeneralSettings {
        tts_model: "base".to_owned(),
        model_unload_timeout: ModelUnloadTimeout::TenMinutes,
        history_limit: 500,
    };
    assert!(!forget_removed_model(&mut general, "tiny"));
    assert_eq!(general.tts_model, "base");
    assert!(forget_removed_model(&mut general, "base"));
    assert_eq!(general.tts_model, "");
    assert_eq!(general.history_limit, 500);
    assert_eq!(general.model_unload_timeout, ModelUnloadTimeout::TenMinutes);
}

#[test]
fn default_model_cycles_through_downloaded_models() {
    let models = vec![
        status("tiny", "Tiny", true, false, false),
        status("base", "Base", false, false, false),
        status("small", "Small", true, false, false),
        status("large", "Large", true, false, false),
    ];
    assert_eq!(default_model_label(&models, "small"), "Small");
    assert_eq!(default_model_label(&models, "base"), "Automatic");
    assert_eq!(default_model_label(&models, ""), "Automatic");
    assert_eq!(next_default_model(&models, ""), Some(0));
    assert_eq!(next_default_model(&models, "tiny"), Some(2));
    assert_eq!(next_default_model(&models, "small"), Some(3));
    assert_eq!(next_default_model(&models, "large"), Some(0));
    assert_eq!(next_default_model(&models, "base"), Some(0));
    assert_eq!(next_default_model(&models[1..2], "base"), None);
    assert_eq!(next_default_model(&models[2..3], "small"), Some(0));
}

#[test]
fn microphone_cycles_back_to_the_system_default() {
    let names: Vec<String> = ["Mic", "USB", "Mic"].iter().map(|n| n.to_string()).collect();
    let devices = input_device_listing(&names, None);
    assert_eq!(microphone_label(&devices, ""), "System default");
    assert_eq!(microphone_label(&devices, "Mic#2"), "Mic");
    assert_eq!(microphone_label(&devices, "Gone"), "Gone");
    assert_eq!(next_microphone(&devices, ""), "Mic");
    assert_eq!(next_microphone(&devices, "Mic"), "USB");
    assert_eq!(next_microphone(&devices, "USB"), "Mic#2");
    assert_eq!(next_microphone(&devices, "Mic#2"), "");
    assert_eq!(next_microphone(&devices, "Gone"), "Mic");
    assert_eq!(next_microphone(&[], ""), "");
}

#[test]
fn settings_rows_step_through_their_choices() {
    assert_eq!(next_history_limit(0), 100);
    assert_eq!(next_history_limit(100), 500);
    assert_eq!(next_history_limit(42), 500);
    assert_eq!(next_history_limit(500), 1000);
    assert_eq!(next_history_limit(1000), 0);
    assert_eq!(next_history_limit(-5), 0);
    assert_eq!(next_recording_buffer(0), 250);
    assert_eq!(next_recording_buffer(750), 1000);
    assert_eq!(next_recording_buffer(1000), 0);
    assert_eq!(next_recording_buffer(1200), 0);
    assert_eq!(recording_buffer_label(250), "250 ms");
    assert_eq!(recording_buffer_label(-10), "-10 ms");
    assert_eq!(terms_label(3), "3 terms");
    assert_eq!(token_label(""), "Not configured");
    assert_eq!(token_label(" "), "Configured");
    assert_eq!(OutputMethod::Paste.label(), "Paste into app");
    assert_eq!(OutputMethod::Paste.next(), OutputMethod::Clipboard);
    assert_eq!(OutputMethod::Clipboard.next(), OutputMethod::Nothing);
    assert_eq!(OutputMethod::Nothing.next(), OutputMethod::Paste);
    assert_eq!(OutputMethod::Nothing.label(), "Do nothing");
    assert_eq!(Accelerator::Auto.label(), "Automatic");
    assert_eq!(Accelerator::Auto.next(), Accelerator::Cpu);
    assert_eq!(Accelerator::Cpu.next(), Accelerator::Gpu);
    assert_eq!(Accelerator::Gpu.next(), Accelerator::Auto);
    assert_eq!(Accelerator::Gpu.label(), "GPU");
}
