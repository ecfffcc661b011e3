use sonar::assets::Assets;
use sonar::chars::{i64_to_decimal, u64_to_decimal};
use sonar::clock::{saturating_millis, timestamp_from_reading, unix_time_millis};
use sonar::history::{fetch_limit, migration_needed, page_from_rows, page_size, prune_plan, records_history, HistoryEntry, Prune};
use sonar::hotkeys::{action_for_event, parse_shortcuts, shortcuts_from, HotkeyAction};
use sonar::input::{
    accessibility_error, after_paste, fallback_failure, insert_text, is_non_memory_format, should_restore_clipboard,
    submit, AfterPaste, PasteOutcome,
};
use sonar::pipeline::{clean_device_id, finalize_result, keeps_session, transcript_source, FinalizeReply, RecordingLatch, TranscriptSource};
use sonar::words::clean_words;

fn entry(id: i64) -> HistoryEntry {
    HistoryEntry { id, created_at: id * 10, text: format!("entry {id}"), model_id: "model".to_owned() }
}

#[test]
fn history_pages_are_bounded() {
    assert_eq!(page_size(None), 30);
    assert_eq!(page_size(Some(0)), 1);
    assert_eq!(page_size(Some(500)), 100);
    assert_eq!(fetch_limit(2), 3);
    let page = page_from_rows(vec![entry(4), entry(3), entry(2)], 2);
    assert!(page.has_more);
    assert_eq!(page.entries.len(), 2);
    assert_eq!(page.entries[0].text, "entry 4");
    let last = page_from_rows(vec![entry(1)], 2);
    assert!(!last.has_more);
    assert!(!records_history(0));
    assert!(matches!(prune_plan(0), Ok(Prune::Clear)));
    assert!(matches!(prune_plan(2), Ok(Prune::KeepNewest(2))));
}

#[test]
fn schema_versions_are_checked() {
    assert_eq!(migration_needed(0), Ok(true));
    assert_eq!(migration_needed(1), Ok(false));
    assert_eq!(migration_needed(-3), Err("history database has invalid schema version -3".to_owned()));
    assert_eq!(
        migration_needed(7),
        Err("history database version 7 is newer than supported version 1".to_owned())
    );
}

#[test]
fn numbers_and_clock_readings() {
    assert_eq!(u64_to_decimal(0), "0");
    assert_eq!(u64_to_decimal(18_446_744_073_709_551_615), "18446744073709551615");
    assert_eq!(i64_to_decimal(i64::MIN), "-9223372036854775808");
    assert_eq!(timestamp_from_reading(None), Err("system clock is before the Unix epoch".to_owned()));
    assert_eq!(timestamp_from_reading(Some(5)), Ok(5));
    assert_eq!(
        timestamp_from_reading(Some(u128::MAX)),
        Err("current time does not fit in SQLite integer".to_owned())
    );
    assert_eq!(saturating_millis(u128::MAX), u64::MAX);
    assert_eq!(saturating_millis(42), 42);
    assert!(unix_time_millis().expect("clock after the epoch") > 1_600_000_000_000);
}

#[test]
fn shortcuts_parse_and_dispatch() {
    let shortcuts = parse_shortcuts("CommandOrControl+Shift+Space", "CommandOrControl+Shift+Backspace")
        .expect("default shortcuts parse");
    assert_ne!(shortcuts.transcribe_id, shortcuts.cancel_id);
    assert_eq!(action_for_event(&shortcuts, true, shortcuts.transcribe_id), Some(HotkeyAction::Transcribe));
    assert_eq!(action_for_event(&shortcuts, true, shortcuts.cancel_id), Some(HotkeyAction::Cancel));
    assert_eq!(action_for_event(&shortcuts, false, shortcuts.cancel_id), None);
    let err = parse_shortcuts("Shift+Nope", "Space").err().expect("unknown key");
    assert!(err.starts_with("invalid transcribe shortcut: "));
    let err = parse_shortcuts("Space", "").err().expect("empty cancel");
    assert!(err.starts_with("invalid cancel shortcut: "));
}

#[test]
fn the_first_failing_shortcut_is_reported() {
    let space = "Space".parse::<global_hotkey::hotkey::HotKey>().expect("space parses");
    let enter = "Enter".parse::<global_hotkey::hotkey::HotKey>().expect("enter parses");
    let err = shortcuts_from(Err("bad key".to_owned()), Err("other".to_owned())).err().expect("transcribe fails");
    assert_eq!(err, "invalid transcribe shortcut: bad key");
    let err = shortcuts_from(Ok((space, space.id())), Err("no key".to_owned())).err().expect("cancel fails");
    assert_eq!(err, "invalid cancel shortcut: no key");
    let both = shortcuts_from(Ok((space, space.id())), Ok((enter, enter.id()))).expect("both parse");
    assert_eq!(both.transcribe, space);
    assert_eq!(both.cancel, enter);
    assert_eq!(both.transcribe_id, space.id());
    assert_eq!(both.cancel_id, enter.id());
}

#[test]
fn each_shortcut_keeps_its_own_id() {
    let transcribe = "CommandOrControl+Shift+Space";
    let cancel = "CommandOrControl+Shift+Backspace";
    let shortcuts = parse_shortcuts(transcribe, cancel).expect("default shortcuts parse");
    let transcribe_id = transcribe.parse::<global_hotkey::hotkey::HotKey>().expect("parses").id();
    let cancel_id = cancel.parse::<global_hotkey::hotkey::HotKey>().expect("parses").id();
    assert_eq!(shortcuts.transcribe_id, transcribe_id);
    assert_eq!(shortcuts.cancel_id, cancel_id);
    assert_eq!(action_for_event(&shortcuts, true, transcribe_id), Some(HotkeyAction::Transcribe));
}

#[test]
fn input_fallbacks_and_paste_decisions() {
    assert_eq!(insert_text(""), Ok(()));
    assert_eq!(insert_text("hi"), Err("text insertion is not implemented on this platform yet".to_owned()));
    assert_eq!(submit("enter"), Err("submit shortcut 'enter' is not implemented on this platform yet".to_owned()));
    assert!(is_non_memory_format(14));
    assert!(is_non_memory_format(9));
    assert!(!is_non_memory_format(13));
    assert!(should_restore_clipboard(false, 7, 7));
    assert!(!should_restore_clipboard(true, 7, 7));
    assert!(!should_restore_clipboard(false, 7, 8));
    assert!(matches!(after_paste(PasteOutcome::Done), AfterPaste::Finished(Ok(()))));
    match after_paste(PasteOutcome::Busy) {
        AfterPaste::Finished(Err(e)) => assert_eq!(e, "a previous text insertion is still finishing"),
        _ => panic!("expected busy error"),
    }
    match after_paste(PasteOutcome::Setup("no window".to_owned())) {
        AfterPaste::Fallback(e) => assert_eq!(e, "no window"),
        _ => panic!("expected fallback"),
    }
    assert_eq!(
        fallback_failure("no window", "no clipboard"),
        "reliable paste failed (no window); fallback paste failed (no clipboard)"
    );
    assert_eq!(
        accessibility_error("denied"),
        "failed to send paste shortcut; grant Sonar Accessibility permission: denied"
    );
}

#[test]
fn pipeline_latch_and_transcript_source() {
    let mut latch = RecordingLatch::new();
    assert_eq!(latch.begin_stop(), Err("not recording".to_owned()));
    assert_eq!(latch.begin_start(), Ok(()));
    assert_eq!(latch.begin_start(), Err("already recording".to_owned()));
    assert_eq!(latch.begin_stop(), Ok(()));
    assert!(matches!(transcript_source(Some("s".to_owned()), true, true, true), TranscriptSource::Batch));
    assert!(matches!(transcript_source(Some("s".to_owned()), true, false, true), TranscriptSource::Streamed(_)));
    assert!(matches!(transcript_source(None, false, false, true), TranscriptSource::Batch));
    assert!(matches!(transcript_source(None, false, false, false), TranscriptSource::Empty));
    assert_eq!(clean_device_id(Some("  ")), None);
    assert_eq!(clean_device_id(Some(" Mic#2 ")), Some("Mic#2".to_owned()));
    assert_eq!(clean_words(&[" a ".to_owned(), "".to_owned(), "b".to_owned()]), vec!["a".to_owned(), "b".to_owned()]);
    assert!(keeps_session(Some("base"), "base"));
    assert!(!keeps_session(Some("small"), "base"));
    assert_eq!(finalize_result(FinalizeReply::Disconnected), Ok(None));
    assert_eq!(
        finalize_result(FinalizeReply::TimedOut),
        Err("timed out waiting 30s to finalize".to_owned())
    );
}

#[test]
fn bundled_assets_are_found_by_path() {
    let assets = Assets;
    assert_eq!(assets.load("icons/mic.svg"), Some(3));
    assert_eq!(assets.load("icons/none.svg"), None);
    assert_eq!(assets.list("icons/t"), vec!["icons/transcribe.svg", "icons/trash.svg"]);
    assert_eq!(assets.list("").len(), 9);
}

#[test]
fn zero_limit_does_not_save() {
    // A history limit of zero records nothing, and pruning to it clears the store.
    assert!(!records_history(0));
    assert!(matches!(prune_plan(0), Ok(Prune::Clear)));
    assert!(records_history(1));
}
