//! User settings: their defaults, validation, and migration of legacy values.
use vstd::prelude::*;
use crate::words::str_eq;

verus! {

/// The cancel shortcut that older Windows builds wrote, now replaced by the default.
pub const LEGACY_WINDOWS_CANCEL_SHORTCUT: &'static str = "CommandOrControl+Shift+Escape";

/// The largest history size a user can configure.
pub const MAX_HISTORY_LIMIT: i64 = 10_000;
/// The longest extra recording buffer a user can configure, in milliseconds.
pub const MAX_EXTRA_RECORDING_BUFFER_MS: i64 = 5_000;
/// The IEEE-754 bit pattern of the default word-correction threshold, 0.18.
pub const DEFAULT_WORD_CORRECTION_THRESHOLD_BITS: u64 = 0x3fc7_0a3d_70a3_d70a;

/// How long a loaded model stays resident after a recording finishes.
#[derive(Clone, Copy, Debug, PartialEq, Eq, Structural)]
pub enum ModelUnloadTimeout {
    Never,
    Immediately,
    TwoMinutes,
    FiveMinutes,
    TenMinutes,
    FifteenMinutes,
    OneHour,
}

impl ModelUnloadTimeout {
    /// Seconds to wait before unloading; `None` for never.
    pub open spec fn spec_delay_secs(self) -> Option<u64> {
        match self {
            ModelUnloadTimeout::Never => None,
            ModelUnloadTimeout::Immediately => Some(0),
            ModelUnloadTimeout::TwoMinutes => Some(120),
            ModelUnloadTimeout::FiveMinutes => Some(300),
            ModelUnloadTimeout::TenMinutes => Some(600),
            ModelUnloadTimeout::FifteenMinutes => Some(900),
            ModelUnloadTimeout::OneHour => Some(3600),
        }
    }

    /// Seconds to wait before unloading; `None` for never.
    pub fn delay_secs(self) -> (secs: Option<u64>)
        ensures
            secs == self.spec_delay_secs(),
    {
        match self {
            ModelUnloadTimeout::Never => None,
            ModelUnloadTimeout::Immediately => Some(0),
            ModelUnloadTimeout::TwoMinutes => Some(120),
            ModelUnloadTimeout::FiveMinutes => Some(300),
            ModelUnloadTimeout::TenMinutes => Some(600),
            ModelUnloadTimeout::FifteenMinutes => Some(900),
            ModelUnloadTimeout::OneHour => Some(3600),
        }
    }

    pub open spec fn spec_next(self) -> ModelUnloadTimeout {
        match self {
            ModelUnloadTimeout::Immediately => ModelUnloadTimeout::TwoMinutes,
            ModelUnloadTimeout::TwoMinutes => ModelUnloadTimeout::FiveMinutes,
            ModelUnloadTimeout::FiveMinutes => ModelUnloadTimeout::TenMinutes,
            ModelUnloadTimeout::TenMinutes => ModelUnloadTimeout::FifteenMinutes,
            ModelUnloadTimeout::FifteenMinutes => ModelUnloadTimeout::OneHour,
            ModelUnloadTimeout::OneHour => ModelUnloadTimeout::Never,
            ModelUnloadTimeout::Never => ModelUnloadTimeout::Immediately,
        }
    }

    /// The next choice when the user clicks through the options, from the
    /// shortest delay up to never and back around.
    pub fn next(self) -> (n: ModelUnloadTimeout)
        ensures
            n == self.spec_next(),
    {
        match self {
            ModelUnloadTimeout::Immediately => ModelUnloadTimeout::TwoMinutes,
            ModelUnloadTimeout::TwoMinutes => ModelUnloadTimeout::FiveMinutes,
            ModelUnloadTimeout::FiveMinutes => ModelUnloadTimeout::TenMinutes,
            ModelUnloadTimeout::TenMinutes => ModelUnloadTimeout::FifteenMinutes,
            ModelUnloadTimeout::FifteenMinutes => ModelUnloadTimeout::OneHour,
            ModelUnloadTimeout::OneHour => ModelUnloadTimeout::Never,
            ModelUnloadTimeout::Never => ModelUnloadTimeout::Immediately,
        }
    }

    /// The label shown for this choice.
    pub fn label(self) -> (text: &'static str)
        ensures
            text@ == match self {
                ModelUnloadTimeout::Immediately => "Immediately"@,
                ModelUnloadTimeout::TwoMinutes => "After 2 minutes"@,
                ModelUnloadTimeout::FiveMinutes => "After 5 minutes"@,
                ModelUnloadTimeout::TenMinutes => "After 10 minutes"@,
                ModelUnloadTimeout::FifteenMinutes => "After 15 minutes"@,
                ModelUnloadTimeout::OneHour => "After 1 hour"@,
                ModelUnloadTimeout::Never => "Never"@,
            },
    {
        match self {
            ModelUnloadTimeout::Immediately => "Immediately",
            ModelUnloadTimeout::TwoMinutes => "After 2 minutes",
            ModelUnloadTimeout::FiveMinutes => "After 5 minutes",
            ModelUnloadTimeout::TenMinutes => "After 10 minutes",
            ModelUnloadTimeout::FifteenMinutes => "After 15 minutes",
            ModelUnloadTimeout::OneHour => "After 1 hour",
            ModelUnloadTimeout::Never => "Never",
        }
    }

    /// The value settings files use for this choice.
    pub fn setting_value(self) -> (text: &'static str)
        ensures
            text@ == match self {
                ModelUnloadTimeout::Never => "never"@,
                ModelUnloadTimeout::Immediately => "immediately"@,
                ModelUnloadTimeout::TwoMinutes => "2m"@,
                ModelUnloadTimeout::FiveMinutes => "5m"@,
                ModelUnloadTimeout::TenMinutes => "10m"@,
                ModelUnloadTimeout::FifteenMinutes => "15m"@,
                ModelUnloadTimeout::OneHour => "1h"@,
            },
    {
        match self {
            ModelUnloadTimeout::Never => "never",
            ModelUnloadTimeout::Immediately => "immediately",
            ModelUnloadTimeout::TwoMinutes => "2m",
            ModelUnloadTimeout::FiveMinutes => "5m",
            ModelUnloadTimeout::TenMinutes => "10m",
            ModelUnloadTimeout::FifteenMinutes => "15m",
            ModelUnloadTimeout::OneHour => "1h",
        }
    }
}

/// Each unload choice waits the time its label names, in seconds: nothing for
/// "Immediately", then two, five, ten and fifteen minutes and one hour;
/// "Never" schedules no unload. Every click towards "Never" waits longer.
pub proof fn unload_delays_match_labels(t: ModelUnloadTimeout)
    ensures
        t.spec_delay_secs() == match t {
            ModelUnloadTimeout::Never => None::<u64>,
            ModelUnloadTimeout::Immediately => Some(0u64),
            ModelUnloadTimeout::TwoMinutes => Some((2 * 60) as u64),
            ModelUnloadTimeout::FiveMinutes => Some((5 * 60) as u64),
            ModelUnloadTimeout::TenMinutes => Some((10 * 60) as u64),
            ModelUnloadTimeout::FifteenMinutes => Some((15 * 60) as u64),
            ModelUnloadTimeout::OneHour => Some((60 * 60) as u64),
        },
        t.spec_delay_secs() is None <==> t == ModelUnloadTimeout::Never,
        (t.spec_delay_secs() is Some && t.spec_next().spec_delay_secs() is Some)
            ==> t.spec_delay_secs()->Some_0 < t.spec_next().spec_delay_secs()->Some_0,
{
}

/// Clicking through the unload choices visits all seven and comes back to the start.
pub proof fn unload_choices_cycle(t: ModelUnloadTimeout)
    ensures
        t.spec_next().spec_next().spec_next().spec_next().spec_next().spec_next().spec_next() == t,
        t.spec_next() != t,
{
}

pub struct GeneralSettings {
    pub tts_model: String,
    pub model_unload_timeout: ModelUnloadTimeout,
    pub history_limit: i64,
}

impl Default for GeneralSettings {
    fn default() -> (d: Self)
        ensures
            d.tts_model@ == Seq::<char>::empty(),
            d.model_unload_timeout == ModelUnloadTimeout::FiveMinutes,
            d.history_limit == 100,
    {
        GeneralSettings {
            tts_model: String::new(),
            model_unload_timeout: ModelUnloadTimeout::FiveMinutes,
            history_limit: 100,
        }
    }
}

pub struct ShortcutSettings {
    pub transcribe: String,
    pub cancel: String,
}

/// The default push-to-talk shortcut.
pub open spec fn default_transcribe_shortcut() -> Seq<char> {
    "CommandOrControl+Shift+Space"@
}

/// The default cancel shortcut.
pub open spec fn default_cancel_shortcut() -> Seq<char> {
    "CommandOrControl+Shift+Backspace"@
}

impl Default for ShortcutSettings {
    fn default() -> (d: Self)
        ensures
            d.transcribe@ == default_transcribe_shortcut(),
            d.cancel@ == default_cancel_shortcut(),
    {
        ShortcutSettings {
            transcribe: String::from_str("CommandOrControl+Shift+Space"),
            cancel: String::from_str("CommandOrControl+Shift+Backspace"),
        }
    }
}

pub struct AudioSettings {
    /// The chosen microphone; empty for the system default.
    pub input_device_id: String,
}

impl Default for AudioSettings {
    fn default() -> (d: Self)
        ensures
            d.input_device_id@ == Seq::<char>::empty(),
    {
        AudioSettings { input_device_id: String::new() }
    }
}

/// Where a finished transcript goes.
#[derive(Clone, Copy, Debug, PartialEq, Eq, Structural)]
pub enum OutputMethod {
    Paste,
    Clipboard,
    /// Keep the transcript in the window only (settings files call it `none`).
    Nothing,
}

/// The key chord sent after pasting, when auto-submit is on.
#[derive(Clone, Copy, Debug, PartialEq, Eq, Structural)]
pub enum AutoSubmitKey {
    Enter,
    ControlEnter,
    CommandEnter,
}

impl AutoSubmitKey {
    /// The key name the input layer understands.
    pub fn key_name(self) -> (name: &'static str)
        ensures
            name@ == match self {
                AutoSubmitKey::Enter => "enter"@,
                AutoSubmitKey::ControlEnter => "ctrl_enter"@,
                AutoSubmitKey::CommandEnter => "cmd_enter"@,
            },
    {
        match self {
            AutoSubmitKey::Enter => "enter",
            AutoSubmitKey::ControlEnter => "ctrl_enter",
            AutoSubmitKey::CommandEnter => "cmd_enter",
        }
    }
}

pub struct OutputSettings {
    pub method: OutputMethod,
    pub append_trailing_space: bool,
    pub auto_submit: bool,
    pub auto_submit_key: AutoSubmitKey,
}

impl Default for OutputSettings {
    fn default() -> (d: Self)
        ensures
            d.method == OutputMethod::Paste,
            !d.append_trailing_space,
            !d.auto_submit,
            d.auto_submit_key == AutoSubmitKey::Enter,
    {
        OutputSettings {
            method: OutputMethod::Paste,
            append_trailing_space: false,
            auto_submit: false,
            auto_submit_key: AutoSubmitKey::Enter,
        }
    }
}

pub struct TranscriptionSettings {
    pub custom_words: Vec<String>,
    pub filler_word_removal: bool,
    pub custom_filler_words: Vec<String>,
    pub extra_recording_buffer_ms: i64,
    /// The word-correction threshold (a fraction between 0 and 1) as its
    /// IEEE-754 bit pattern.
    pub word_correction_threshold_bits: u64,
}

impl Default for TranscriptionSettings {
    fn default() -> (d: Self)
        ensures
            d.custom_words@.len() == 0,
            d.filler_word_removal,
            d.custom_filler_words@.len() == 0,
            d.extra_recording_buffer_ms == 0,
            d.word_correction_threshold_bits == DEFAULT_WORD_CORRECTION_THRESHOLD_BITS,
    {
        TranscriptionSettings {
            custom_words: Vec::new(),
            filler_word_removal: true,
            custom_filler_words: Vec::new(),
            extra_recording_buffer_ms: 0,
            word_correction_threshold_bits: DEFAULT_WORD_CORRECTION_THRESHOLD_BITS,
        }
    }
}

/// The accelerator the user picked for inference.
#[derive(Clone, Copy, Debug, PartialEq, Eq, Structural)]
pub enum Accelerator {
    Auto,
    Cpu,
    Gpu,
}

pub struct InferenceSettings {
    pub accelerator: Accelerator,
    /// The persisted compute-device id; empty for automatic selection.
    pub gpu_device_id: String,
}

impl Default for InferenceSettings {
    fn default() -> (d: Self)
        ensures
            d.accelerator == Accelerator::Auto,
            d.gpu_device_id@ == Seq::<char>::empty(),
    {
        InferenceSettings { accelerator: Accelerator::Auto, gpu_device_id: String::new() }
    }
}

pub struct AuthSettings {
    pub hugging_face_token: String,
}

impl Default for AuthSettings {
    fn default() -> (d: Self)
        ensures
            d.hugging_face_token@ == Seq::<char>::empty(),
    {
        AuthSettings { hugging_face_token: String::new() }
    }
}

pub struct Settings {
    pub schema_version: i64,
    pub general: GeneralSettings,
    pub shortcuts: ShortcutSettings,
    pub audio: AudioSettings,
    pub output: OutputSettings,
    pub transcription: TranscriptionSettings,
    pub inference: InferenceSettings,
    pub auth: AuthSettings,
}

impl Default for Settings {
    fn default() -> (d: Self)
        ensures
            d.schema_version == 1,
            d.general.tts_model@ == Seq::<char>::empty(),
            d.general.model_unload_timeout == ModelUnloadTimeout::FiveMinutes,
            d.general.history_limit == 100,
            d.shortcuts.transcribe@ == default_transcribe_shortcut(),
            d.shortcuts.cancel@ == default_cancel_shortcut(),
            d.audio.input_device_id@ == Seq::<char>::empty(),
            d.output.method == OutputMethod::Paste,
            !d.output.append_trailing_space,
            !d.output.auto_submit,
            d.output.auto_submit_key == AutoSubmitKey::Enter,
            d.transcription.custom_words@.len() == 0,
            d.transcription.filler_word_removal,
            d.transcription.custom_filler_words@.len() == 0,
            d.transcription.extra_recording_buffer_ms == 0,
            d.transcription.word_correction_threshold_bits == DEFAULT_WORD_CORRECTION_THRESHOLD_BITS,
            d.inference.accelerator == Accelerator::Auto,
            d.inference.gpu_device_id@ == Seq::<char>::empty(),
            d.auth.hugging_face_token@ == Seq::<char>::empty(),
    {
        Settings {
            schema_version: 1,
            general: GeneralSettings::default(),
            shortcuts: ShortcutSettings::default(),
            audio: AudioSettings::default(),
            output: OutputSettings::default(),
            transcription: TranscriptionSettings::default(),
            inference: InferenceSettings::default(),
            auth: AuthSettings::default(),
        }
    }
}

/// `v` clamped into `[lo, hi]`.
pub open spec fn clamp(v: i64, lo: i64, hi: i64) -> i64 {
    if v < lo { lo } else if v > hi { hi } else { v }
}

/// The settings after validation: `None` when either shortcut is empty;
/// otherwise the history limit and the extra recording buffer are clamped into
/// their ranges and everything else is kept.
pub open spec fn spec_validated(s: Settings) -> Option<Settings> {
    if s.shortcuts.transcribe@.len() == 0 || s.shortcuts.cancel@.len() == 0 {
        None
    } else {
        Some(Settings {
            general: GeneralSettings {
                history_limit: clamp(s.general.history_limit, 0, MAX_HISTORY_LIMIT),
                ..s.general
            },
            transcription: TranscriptionSettings {
                extra_recording_buffer_ms: clamp(s.transcription.extra_recording_buffer_ms, 0, MAX_EXTRA_RECORDING_BUFFER_MS),
                ..s.transcription
            },
            ..s
        })
    }
}

fn clamp_i64(v: i64, lo: i64, hi: i64) -> (c: i64)
    requires
        lo <= hi,
    ensures
        c == clamp(v, lo, hi),
{
    if v < lo {
        lo
    } else if v > hi {
        hi
    } else {
        v
    }
}

impl Settings {
    /// Validates loaded or submitted settings: rejects empty shortcuts and clamps
    /// the history limit to `0..=10000` and the extra recording buffer to
    /// `0..=5000` ms. (The word-correction threshold is a float and is clamped
    /// to `0.0..=1.0` by the caller.)
    pub fn validated(self) -> (v: Option<Self>)
        ensures
            v == spec_validated(self),
    {
        if self.shortcuts.transcribe.as_str().is_empty() || self.shortcuts.cancel.as_str().is_empty() {
            return None;
        }
        let mut s = self;
        s.general.history_limit = clamp_i64(s.general.history_limit, 0, MAX_HISTORY_LIMIT);
        s.transcription.extra_recording_buffer_ms = clamp_i64(
            s.transcription.extra_recording_buffer_ms,
            0,
            MAX_EXTRA_RECORDING_BUFFER_MS,
        );
        Some(s)
    }
}

/// Validating valid settings changes nothing.
pub proof fn validated_is_idempotent(s: Settings)
    requires
        spec_validated(s) is Some,
    ensures
        spec_validated(spec_validated(s).unwrap()) == spec_validated(s),
{
}

/// Whether the legacy-shortcut migration applies to `s`: on Windows, when the
/// cancel shortcut is the legacy one.
pub open spec fn migration_applies(s: Settings, windows: bool) -> bool {
    windows && s.shortcuts.cancel@ == LEGACY_WINDOWS_CANCEL_SHORTCUT@
}

/// `after` is `before` migrated: when the migration applies, the cancel
/// shortcut is replaced by the default one and nothing else changes;
/// otherwise nothing changes at all.
pub open spec fn migrated(before: Settings, after: Settings, windows: bool) -> bool {
    if migration_applies(before, windows) {
        &&& after.shortcuts.cancel@ == default_cancel_shortcut()
        &&& after == (Settings {
            shortcuts: ShortcutSettings { cancel: after.shortcuts.cancel, ..before.shortcuts },
            ..before
        })
    } else {
        after == before
    }
}

/// Replaces the legacy Windows cancel shortcut with the current default.
/// Returns whether anything changed (and the settings must be saved).
pub fn migrate_legacy_cancel_shortcut(settings: &mut Settings, windows: bool) -> (changed: bool)
    ensures
        changed == migration_applies(*old(settings), windows),
        migrated(*old(settings), *final(settings), windows),
{
    if windows && str_eq(settings.shortcuts.cancel.as_str(), LEGACY_WINDOWS_CANCEL_SHORTCUT) {
        settings.shortcuts.cancel = ShortcutSettings::default().cancel;
        true
    } else {
        false
    }
}

/// Migrating settings a second time changes nothing: migrated settings no
/// longer hold the legacy shortcut, so every further migration leaves them as
/// they are.
pub proof fn migration_is_idempotent(before: Settings, after: Settings, again: Settings, windows: bool)
    requires
        migrated(before, after, windows),
        migrated(after, again, windows),
    ensures
        !migration_applies(after, windows),
        again == after,
{
    reveal_strlit("CommandOrControl+Shift+Backspace");
    reveal_strlit("CommandOrControl+Shift+Escape");
    assert(default_cancel_shortcut()[23] != LEGACY_WINDOWS_CANCEL_SHORTCUT@[23]);
}

/// Validation refuses settings with an empty shortcut and otherwise only brings
/// the history limit into 0..=10000 and the extra recording buffer into
/// 0..=5000 ms: a value in range is kept as it is, one below becomes the lower
/// bound and one above the upper bound; every other setting is unchanged.
pub proof fn validation_keeps_in_range_values(s: Settings)
    ensures
        (s.shortcuts.transcribe@.len() == 0 || s.shortcuts.cancel@.len() == 0) <==> spec_validated(s) is None,
        spec_validated(s) matches Some(v) ==> {
            let b = s.transcription.extra_recording_buffer_ms;
            let h = s.general.history_limit;
            &&& (0 <= b <= 5000 ==> v.transcription.extra_recording_buffer_ms == b)
            &&& (b > 5000 ==> v.transcription.extra_recording_buffer_ms == 5000)
            &&& (b < 0 ==> v.transcription.extra_recording_buffer_ms == 0)
            &&& (0 <= h <= 10000 ==> v.general.history_limit == h)
            &&& (h > 10000 ==> v.general.history_limit == 10000)
            &&& (h < 0 ==> v.general.history_limit == 0)
            &&& v.schema_version == s.schema_version
            &&& v.general.tts_model == s.general.tts_model
            &&& v.general.model_unload_timeout == s.general.model_unload_timeout
            &&& v.shortcuts == s.shortcuts
            &&& v.audio == s.audio
            &&& v.output == s.output
            &&& v.transcription.custom_words == s.transcription.custom_words
            &&& v.transcription.filler_word_removal == s.transcription.filler_word_removal
            &&& v.transcription.custom_filler_words == s.transcription.custom_filler_words
            &&& v.transcription.word_correction_threshold_bits == s.transcription.word_correction_threshold_bits
            &&& v.inference == s.inference
            &&& v.auth == s.auth
        },
{
}

} // verus!
