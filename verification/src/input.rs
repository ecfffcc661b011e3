//! Text insertion into the focused application: the portable entry points and
//! the decisions of the clipboard-paste backends. The operating-system
//! backends themselves (the Win32 delayed-rendering clipboard and the macOS key
//! injection) are not part of this library, so the entry points behave as on a
//! platform without a backend.
use vstd::prelude::*;

verus! {

/// The message when no insertion backend exists for this platform.
pub open spec fn insertion_unsupported() -> Seq<char> {
    "text insertion is not implemented on this platform yet"@
}

/// Inserts text into the focused application. Empty text needs nothing; on a
/// platform without an insertion backend any other text is an error.
pub fn insert_text(text: &str) -> (res: Result<(), String>)
    ensures
        text@.len() == 0 ==> res is Ok,
        text@.len() > 0 ==> (res matches Err(e) && e@ == insertion_unsupported()),
{
    if text.is_empty() {
        return Ok(());
    }
    Err(String::from_str("text insertion is not implemented on this platform yet"))
}

/// Sends a submit shortcut to the focused application; on a platform without an
/// input backend this is an error naming the key.
pub fn submit(key: &str) -> (res: Result<(), String>)
    ensures
        res matches Err(e) && e@ == "submit shortcut '"@ + key@ + "' is not implemented on this platform yet"@,
{
    let mut message = String::from_str("submit shortcut '");
    message.append(key);
    message.append("' is not implemented on this platform yet");
    Err(message)
}

/// The message for a paste chord the system refused to send.
pub fn accessibility_error(error: &str) -> (message: String)
    ensures
        message@ == "failed to send paste shortcut; grant Sonar Accessibility permission: "@ + error@,
{
    let mut message = String::from_str("failed to send paste shortcut; grant Sonar Accessibility permission: ");
    message.append(error);
    message
}

/// Clipboard formats whose data is not a global memory block and therefore
/// cannot be saved and restored byte for byte: enhanced metafiles, the
/// private display formats, owner-drawn data and palettes.
pub open spec fn spec_is_non_memory_format(format: u32) -> bool {
    format == 14 || format == 0x8e || format == 0x82 || format == 0x83 || format == 0x81 || format == 0x80
        || format == 9
}

pub fn is_non_memory_format(format: u32) -> (r: bool)
    ensures
        r == spec_is_non_memory_format(format),
{
    format == 14 || format == 0x8e || format == 0x82 || format == 0x83 || format == 0x81 || format == 0x80
        || format == 9
}

/// Whether the saved clipboard may be put back after a paste: only when nobody
/// replaced the clipboard meanwhile (its change counter did not move) and this
/// process still owns it.
pub fn should_restore_clipboard(ownership_lost: bool, counter_at_publish: u32, counter_now: u32) -> (restore: bool)
    ensures
        restore == (!ownership_lost && counter_at_publish == counter_now),
{
    !ownership_lost && counter_at_publish == counter_now
}

/// How the receipt-sequenced paste ended.
pub enum PasteOutcome {
    Done,
    /// Another insertion is still finishing.
    Busy,
    /// The clipboard transaction could not be set up.
    Setup(String),
    /// The paste chord could not be sent.
    Injection(String),
}

/// What follows a receipt-sequenced paste attempt.
pub enum AfterPaste {
    /// The insertion is over with this result.
    Finished(Result<(), String>),
    /// Fall back to a plain clipboard paste; the setup error is kept for the report.
    Fallback(String),
}

/// Decides what a paste attempt's outcome leads to: only a setup failure falls
/// back to the plain paste.
pub fn after_paste(outcome: PasteOutcome) -> (next: AfterPaste)
    ensures
        outcome is Done ==> (next matches AfterPaste::Finished(r) && r is Ok),
        outcome is Busy ==> (next matches AfterPaste::Finished(r) && r matches Err(e)
            && e@ == "a previous text insertion is still finishing"@),
        outcome matches PasteOutcome::Injection(i) ==> (next matches AfterPaste::Finished(r) && r matches Err(e)
            && e@ == i@),
        outcome matches PasteOutcome::Setup(s) ==> (next matches AfterPaste::Fallback(f) && f@ == s@),
{
    match outcome {
        PasteOutcome::Done => AfterPaste::Finished(Ok(())),
        PasteOutcome::Busy => AfterPaste::Finished(Err(String::from_str("a previous text insertion is still finishing"))),
        PasteOutcome::Injection(error) => AfterPaste::Finished(Err(error)),
        PasteOutcome::Setup(error) => AfterPaste::Fallback(error),
    }
}

/// The error reported when both the receipt-sequenced paste and the fallback failed.
pub fn fallback_failure(reliable_error: &str, legacy_error: &str) -> (message: String)
    ensures
        message@ == "reliable paste failed ("@ + reliable_error@ + "); fallback paste failed ("@ + legacy_error@
            + ")"@,
{
    let mut message = String::from_str("reliable paste failed (");
    message.append(reliable_error);
    message.append("); fallback paste failed (");
    message.append(legacy_error);
    message.append(")");
    message
}

} // verus!
