use sonar::settings::{
    migrate_legacy_cancel_shortcut, AutoSubmitKey, ModelUnloadTimeout, OutputMethod, Settings, ShortcutSettings,
    DEFAULT_WORD_CORRECTION_THRESHOLD_BITS, LEGACY_WINDOWS_CANCEL_SHORTCUT,
};

#[test]
fn legacy_windows_cancel_shortcut_is_migrated() {
    let mut settings = Settings::default();
    settings.shortcuts.cancel = LEGACY_WINDOWS_CANCEL_SHORTCUT.to_owned();
    assert!(migrate_legacy_cancel_shortcut(&mut settings, true));
    assert_eq!(settings.shortcuts.cancel, ShortcutSettings::default().cancel);
}

#[test]
fn migration_only_applies_on_windows_and_once() {
    let mut settings = Settings::default();
    settings.shortcuts.cancel = LEGACY_WINDOWS_CANCEL_SHORTCUT.to_owned();
    assert!(!migrate_legacy_cancel_shortcut(&mut settings, false));
    assert_eq!(settings.shortcuts.cancel, LEGACY_WINDOWS_CANCEL_SHORTCUT);
    assert!(migrate_legacy_cancel_shortcut(&mut settings, true));
    assert!(!migrate_legacy_cancel_shortcut(&mut settings, true));
}

#[test]
fn defaults_match_the_schema() {
    let settings = Settings::default();
    assert_eq!(settings.schema_version, 1);
    assert_eq!(settings.general.model_unload_timeout, ModelUnloadTimeout::FiveMinutes);
    assert_eq!(settings.general.model_unload_timeout.setting_value(), "5m");
    assert_eq!(settings.shortcuts.cancel, "CommandOrControl+Shift+Backspace");
    assert_eq!(settings.shortcuts.transcribe, "CommandOrControl+Shift+Space");
    assert_eq!(settings.output.auto_submit_key, AutoSubmitKey::Enter);
    assert_eq!(settings.output.auto_submit_key.key_name(), "enter");
    assert_eq!(settings.output.method, OutputMethod::Paste);
    assert_eq!(f64::from_bits(settings.transcription.word_correction_threshold_bits), 0.18);
    assert_eq!(DEFAULT_WORD_CORRECTION_THRESHOLD_BITS, 0.18f64.to_bits());
    assert!(settings.transcription.filler_word_removal);
    assert_eq!(settings.general.history_limit, 100);
}

#[test]
fn validation_clamps_ranges_and_rejects_empty_shortcuts() {
    let mut settings = Settings::default();
    settings.general.history_limit = 20_000;
    settings.transcription.extra_recording_buffer_ms = -4;
    let valid = settings.validated().expect("valid settings");
    assert_eq!(valid.general.history_limit, 10_000);
    assert_eq!(valid.transcription.extra_recording_buffer_ms, 0);
    let again = valid.validated().expect("still valid");
    assert_eq!(again.general.history_limit, 10_000);

    let mut empty = Settings::default();
    empty.shortcuts.cancel.clear();
    assert!(empty.validated().is_none());
}

#[test]
fn unload_choices_cycle_through_all_labels() {
    let mut t = ModelUnloadTimeout::Immediately;
    let mut labels = Vec::new();
    for _ in 0..7 {
        labels.push(t.label());
        t = t.next();
    }
    assert_eq!(t, ModelUnloadTimeout::Immediately);
    assert_eq!(
        labels,
        vec![
            "Immediately",
            "After 2 minutes",
            "After 5 minutes",
            "After 10 minutes",
            "After 15 minutes",
            "After 1 hour",
            "Never"
        ]
    );
    assert_eq!(ModelUnloadTimeout::Never.delay_secs(), None);
    assert_eq!(ModelUnloadTimeout::OneHour.delay_secs(), Some(3600));
}
