use sonar::transaction::{should_finish, State, FAILED_INJECTION_TIMEOUT_MS, QUIET_PERIOD_MS, RESTORE_TIMEOUT_MS};

/// An instant well into the transaction's clock, so that "ago" stays positive.
const NOW: u64 = 1_000_000;

fn ago(now: u64, duration_ms: u64) -> u64 {
    now.saturating_sub(duration_ms)
}

fn state_published_ago(now: u64, duration_ms: u64) -> State {
    let mut state = State::new();
    state.published_at = ago(now, duration_ms);
    state
}

#[test]
fn waits_for_a_receipt() {
    let now = NOW;
    let state = state_published_ago(now, 100);
    assert!(!should_finish(&state, now));
}

#[test]
fn ignores_receipts_before_injection() {
    let now = NOW;
    let mut state = state_published_ago(now, 300);
    state.receipts.push(ago(now, 200));
    state.injected_at = Some(ago(now, 100));
    assert!(!should_finish(&state, now));
}

#[test]
fn finishes_after_receipts_go_quiet() {
    let now = NOW;
    let mut state = state_published_ago(now, 300);
    state.injected_at = Some(ago(now, 250));
    state.receipts.push(ago(now, QUIET_PERIOD_MS));
    assert!(should_finish(&state, now));
}

#[test]
fn failed_injection_restores_quickly() {
    let now = NOW;
    let mut state = state_published_ago(now, FAILED_INJECTION_TIMEOUT_MS);
    state.injection_failed = true;
    assert!(should_finish(&state, now));
}

#[test]
fn ownership_loss_finishes_immediately() {
    let now = NOW;
    let mut state = state_published_ago(now, 1);
    state.ownership_lost = true;
    assert!(should_finish(&state, now));
}

#[test]
fn last_receipt_is_the_latest_after_injection() {
    let mut state = State::new();
    state.published_at = 1_000;
    state.receipts = vec![1_100, 1_300, 1_200, 1_050];
    assert_eq!(state.last_receipt_after_injection(), None);
    state.injected_at = Some(1_150);
    assert_eq!(state.last_receipt_after_injection(), Some(1_200));
    state.injected_at = Some(1_250);
    assert_eq!(state.last_receipt_after_injection(), Some(1_300));
    state.injected_at = Some(1_400);
    assert_eq!(state.last_receipt_after_injection(), None);
}

#[test]
fn restore_timeout_applies_only_without_a_sent_chord() {
    let mut state = State::new();
    state.published_at = 10_000;
    assert!(!should_finish(&state, 10_000 + RESTORE_TIMEOUT_MS - 1));
    assert!(should_finish(&state, 10_000 + RESTORE_TIMEOUT_MS));
    // A clock that reads before publication never finishes by timeout.
    assert!(!should_finish(&state, 9_000));
}

#[test]
fn an_unread_transcript_keeps_the_clipboard() {
    let mut state = State::new();
    state.published_at = 10_000;
    state.injected_at = Some(10_050);
    state.receipts.push(10_020);
    for now in [18_000, 60_000, u64::MAX] {
        assert!(!should_finish(&state, now));
    }
    state.receipts.push(70_000);
    assert!(!should_finish(&state, 70_000 + QUIET_PERIOD_MS - 1));
    assert!(should_finish(&state, 70_000 + QUIET_PERIOD_MS));
}

#[test]
fn a_new_transaction_starts_its_clock_at_zero() {
    let state = State::new();
    assert_eq!(state.published_at, 0);
    let first = state.now();
    assert!(state.now() >= first);
}

#[test]
fn finished_stays_finished_later() {
    let mut state = State::new();
    state.published_at = 0;
    state.injected_at = Some(10);
    state.receipts.push(20);
    assert!(!should_finish(&state, 219));
    for now in 220..400 {
        assert!(should_finish(&state, now));
    }
}
