//! What the application's pages show and how their controls step through the
//! choices: the record button, the model cards and the settings rows.
use vstd::prelude::*;
use crate::audio::{find_device, DeviceListing};
use crate::chars::{decimal, signed_decimal, i64_to_decimal, u64_to_decimal};
use crate::models::ModelStatus;
use crate::service::{first_download_from, first_downloaded, first_downloaded_with_id, no_download_with_id, selected_download};
use crate::session::RecordingState;
use crate::settings::{Accelerator, GeneralSettings, OutputMethod};
use crate::words::str_eq;

verus! {

// ----------------------------------------------------------------- home page

/// The record button for one recording state: the caption under it, its own
/// text, and whether pressing it stops a recording.
pub struct RecordButton {
    pub caption: &'static str,
    pub label: &'static str,
    pub stops: bool,
}

/// What the record button shows in `state`.
pub fn record_button(state: RecordingState) -> (b: RecordButton)
    ensures
        b.caption@ == match state {
            RecordingState::Idle => "Press to start speaking"@,
            RecordingState::Starting => "Starting microphone..."@,
            RecordingState::Recording => "Listening... press to stop"@,
            RecordingState::Transcribing => "Transcribing..."@,
        },
        b.label@ == match state {
            RecordingState::Idle => "MIC"@,
            RecordingState::Recording => "STOP"@,
            _ => "..."@,
        },
        b.stops == (state == RecordingState::Recording),
{
    match state {
        RecordingState::Idle => RecordButton { caption: "Press to start speaking", label: "MIC", stops: false },
        RecordingState::Starting => RecordButton { caption: "Starting microphone...", label: "...", stops: false },
        RecordingState::Recording => RecordButton { caption: "Listening... press to stop", label: "STOP", stops: true },
        RecordingState::Transcribing => RecordButton { caption: "Transcribing...", label: "...", stops: false },
    }
}

// ---------------------------------------------------------------- model cards

/// The one action a model card offers.
#[derive(Clone, Copy, Debug, PartialEq, Eq, Structural)]
pub enum ModelAction {
    /// Stop the download in flight.
    Cancel,
    /// Delete the downloaded file.
    Remove,
    Download,
}

/// The action offered for `status`: cancelling wins over removing, and a model
/// that is neither downloading nor downloaded can be downloaded.
pub fn model_action(status: &ModelStatus) -> (a: ModelAction)
    ensures
        a == (if status.is_downloading {
            ModelAction::Cancel
        } else if status.is_downloaded {
            ModelAction::Remove
        } else {
            ModelAction::Download
        }),
{
    if status.is_downloading {
        ModelAction::Cancel
    } else if status.is_downloaded {
        ModelAction::Remove
    } else {
        ModelAction::Download
    }
}

/// The card title: the model's name, followed by a recommendation mark when
/// the catalog recommends it.
pub fn model_title(status: &ModelStatus) -> (title: String)
    ensures
        title@ == (if status.recommended { status.name@ + "  Recommended"@ } else { status.name@ }),
{
    let mut title = String::from_str(status.name.as_str());
    if status.recommended {
        title.append("  Recommended");
    }
    title
}

/// How a model produces text: live while speaking, or once recording stops.
pub fn streaming_label(supports_streaming: bool) -> (label: &'static str)
    ensures
        label@ == (if supports_streaming { "Live streaming"@ } else { "Transcribes on stop"@ }),
{
    if supports_streaming {
        "Live streaming"
    } else {
        "Transcribes on stop"
    }
}

/// One gigabyte, the size from which a card shows gigabytes.
pub const GIGABYTE: u64 = 1_000_000_000;

/// One megabyte.
pub const MEGABYTE: u64 = 1_000_000;

/// The size of a model below one gigabyte, in whole megabytes ("42 MB").
/// Larger sizes are shown in gigabytes with one decimal, a fractional figure
/// this function leaves to the caller (`None`).
pub fn megabytes_label(size_bytes: u64) -> (label: Option<String>)
    ensures
        size_bytes >= GIGABYTE ==> label is None,
        size_bytes < GIGABYTE ==> (label matches Some(s) && s@ == decimal((size_bytes / MEGABYTE) as nat) + " MB"@),
{
    if size_bytes >= GIGABYTE {
        None
    } else {
        let mut s = u64_to_decimal(size_bytes / MEGABYTE);
        s.append(" MB");
        Some(s)
    }
}

/// After the model `removed_id` is deleted, the default model setting no
/// longer names it: when it did, it is cleared (automatic choice). Returns
/// whether the setting changed, that is whether it must be saved.
pub fn forget_removed_model(general: &mut GeneralSettings, removed_id: &str) -> (cleared: bool)
    ensures
        cleared == (old(general).tts_model@ == removed_id@),
        cleared ==> final(general).tts_model@ == Seq::<char>::empty(),
        !cleared ==> final(general).tts_model@ == old(general).tts_model@,
        final(general).model_unload_timeout == old(general).model_unload_timeout,
        final(general).history_limit == old(general).history_limit,
{
    if str_eq(general.tts_model.as_str(), removed_id) {
        general.tts_model = String::new();
        true
    } else {
        false
    }
}

// ------------------------------------------------------------ default model

/// `j` is the first downloaded model after position `i`.
pub open spec fn next_download_after(models: Seq<ModelStatus>, i: int, j: int) -> bool {
    &&& i < j < models.len()
    &&& models[j].is_downloaded
    &&& forall|k: int| i < k < j ==> !(#[trigger] models[k].is_downloaded)
}

/// No model after position `i` is downloaded.
pub open spec fn none_downloaded_after(models: Seq<ModelStatus>, i: int) -> bool {
    forall|k: int| i < k < models.len() ==> !(#[trigger] models[k].is_downloaded)
}

/// The name shown for the default model: that of the first downloaded model
/// whose id is `selected`, or "Automatic" when none is.
pub fn default_model_label(models: &[ModelStatus], selected: &str) -> (label: String)
    ensures
        forall|i: int| first_downloaded_with_id(models@, selected@, i) ==> label@ == models@[i].name@,
        no_download_with_id(models@, selected@) ==> label@ == "Automatic"@,
{
    match selected_download(models, selected) {
        Some(i) => String::from_str(models[i].name.as_str()),
        None => String::from_str("Automatic"),
    }
}

/// The model a click on the default-model row selects: the downloaded model
/// after the selected one, wrapping round to the first downloaded model, which
/// is also the choice when the selected model is not downloaded. `None` when
/// no model is downloaded, and the setting stays as it is.
pub fn next_default_model(models: &[ModelStatus], selected: &str) -> (next: Option<usize>)
    ensures
        next is None <==> forall|k: int| 0 <= k < models@.len() ==> !(#[trigger] models@[k].is_downloaded),
        next matches Some(j) ==> forall|i: int| #[trigger] first_downloaded_with_id(models@, selected@, i) ==>
            next_download_after(models@, i, j as int)
                || (none_downloaded_after(models@, i) && first_downloaded(models@, j as int)),
        next matches Some(j) ==> (no_download_with_id(models@, selected@) ==> first_downloaded(models@, j as int)),
{
    let first = first_download_from(models, 0);
    match first {
        None => None,
        Some(f) => match selected_download(models, selected) {
            None => Some(f),
            Some(i) => {
                let count: usize = models.len();
                assert(first_downloaded_with_id(models@, selected@, i as int));
                assert(i < count);
                match first_download_from(models, i + 1) {
                    Some(j) => Some(j),
                    None => Some(f),
                }
            },
        },
    }
}

// ---------------------------------------------------------------- microphone

/// `i` is the first listed device whose id is `id`.
pub open spec fn is_first_device(devices: Seq<DeviceListing>, id: Seq<char>, i: int) -> bool {
    &&& 0 <= i < devices.len()
    &&& devices[i].id@ == id
    &&& forall|j: int| 0 <= j < i ==> #[trigger] devices[j].id@ != id
}

/// No listed device has the id `id`.
pub open spec fn no_device_with_id(devices: Seq<DeviceListing>, id: Seq<char>) -> bool {
    forall|j: int| 0 <= j < devices.len() ==> #[trigger] devices[j].id@ != id
}

/// The microphone row: "System default" when none is chosen, otherwise the
/// name of the first listed device with the chosen id, or the id itself when
/// no listed device has it.
pub fn microphone_label(devices: &[DeviceListing], selected: &str) -> (label: String)
    ensures
        selected@.len() == 0 ==> label@ == "System default"@,
        selected@.len() > 0 ==> forall|i: int| #[trigger] is_first_device(devices@, selected@, i)
            ==> label@ == devices@[i].name@,
        selected@.len() > 0 && no_device_with_id(devices@, selected@) ==> label@ == selected@,
{
    if selected.is_empty() {
        return String::from_str("System default");
    }
    match find_device(devices, selected) {
        Ok(i) => String::from_str(devices[i].name.as_str()),
        Err(_) => String::from_str(selected),
    }
}

/// The microphone id a click on the microphone row selects: the device listed
/// after the first one with the chosen id, or the first device when none has
/// it; past the last device the choice returns to the system default (empty).
pub fn next_microphone(devices: &[DeviceListing], selected: &str) -> (id: String)
    ensures
        forall|i: int| #[trigger] is_first_device(devices@, selected@, i) ==>
            (if i + 1 < devices@.len() { id@ == devices@[i + 1].id@ } else { id@ == Seq::<char>::empty() }),
        no_device_with_id(devices@, selected@) ==>
            (if devices@.len() > 0 { id@ == devices@[0].id@ } else { id@ == Seq::<char>::empty() }),
{
    let count: usize = devices.len();
    let next: usize = match find_device(devices, selected) {
        Ok(i) => {
            assert(i < count);
            i + 1
        },
        Err(_) => 0,
    };
    if next >= count {
        String::new()
    } else {
        String::from_str(devices[next].id.as_str())
    }
}

// ------------------------------------------------------------- settings rows

/// The history limit after a click: 0, 100, 500 and 1000 in turn; any other
/// value above 500 (or below 0) returns to 0.
pub open spec fn spec_next_history_limit(limit: i64) -> i64 {
    if limit == 0 {
        100
    } else if 1 <= limit <= 100 {
        500
    } else if 101 <= limit <= 500 {
        1000
    } else {
        0
    }
}

/// Steps the history limit (see `spec_next_history_limit`).
pub fn next_history_limit(limit: i64) -> (next: i64)
    ensures
        next == spec_next_history_limit(limit),
{
    if limit == 0 {
        100
    } else if 1 <= limit && limit <= 100 {
        500
    } else if 101 <= limit && limit <= 500 {
        1000
    } else {
        0
    }
}

/// The trailing audio buffer after a click: 250 ms more, back to 0 once it has
/// reached 1000 ms.
pub fn next_recording_buffer(ms: i64) -> (next: i64)
    ensures
        next == (if ms >= 1000 { 0 } else { ms + 250 }),
{
    if ms >= 1000 {
        0
    } else {
        ms + 250
    }
}

/// The trailing audio buffer row: "<ms> ms".
pub fn recording_buffer_label(ms: i64) -> (label: String)
    ensures
        label@ == signed_decimal(ms as int) + " ms"@,
{
    let mut label = i64_to_decimal(ms);
    label.append(" ms");
    label
}

/// The custom words row: "<n> terms".
pub fn terms_label(count: usize) -> (label: String)
    ensures
        label@ == decimal(count as nat) + " terms"@,
{
    let mut label = u64_to_decimal(count as u64);
    label.append(" terms");
    label
}

/// The access-token row: whether a token is stored at all.
pub fn token_label(token: &str) -> (label: &'static str)
    ensures
        label@ == (if token@.len() == 0 { "Not configured"@ } else { "Configured"@ }),
{
    if token.is_empty() {
        "Not configured"
    } else {
        "Configured"
    }
}

impl OutputMethod {
    /// What the output row shows for this method.
    pub fn label(self) -> (label: &'static str)
        ensures
            label@ == match self {
                OutputMethod::Paste => "Paste into app"@,
                OutputMethod::Clipboard => "Copy to clipboard"@,
                OutputMethod::Nothing => "Do nothing"@,
            },
    {
        match self {
            OutputMethod::Paste => "Paste into app",
            OutputMethod::Clipboard => "Copy to clipboard",
            OutputMethod::Nothing => "Do nothing",
        }
    }

    pub open spec fn spec_next(self) -> OutputMethod {
        match self {
            OutputMethod::Paste => OutputMethod::Clipboard,
            OutputMethod::Clipboard => OutputMethod::Nothing,
            OutputMethod::Nothing => OutputMethod::Paste,
        }
    }

    /// The method a click selects: paste, clipboard, nothing, in turn.
    pub fn next(self) -> (n: OutputMethod)
        ensures
            n == self.spec_next(),
    {
        match self {
            OutputMethod::Paste => OutputMethod::Clipboard,
            OutputMethod::Clipboard => OutputMethod::Nothing,
            OutputMethod::Nothing => OutputMethod::Paste,
        }
    }
}

impl Accelerator {
    /// What the accelerator row shows.
    pub fn label(self) -> (label: &'static str)
        ensures
            label@ == match self {
                Accelerator::Auto => "Automatic"@,
                Accelerator::Cpu => "CPU"@,
                Accelerator::Gpu => "GPU"@,
            },
    {
        match self {
            Accelerator::Auto => "Automatic",
            Accelerator::Cpu => "CPU",
            Accelerator::Gpu => "GPU",
        }
    }

    pub open spec fn spec_next(self) -> Accelerator {
        match self {
            Accelerator::Auto => Accelerator::Cpu,
            Accelerator::Cpu => Accelerator::Gpu,
            Accelerator::Gpu => Accelerator::Auto,
        }
    }

    /// The accelerator a click selects: automatic, CPU, GPU, in turn.
    pub fn next(self) -> (n: Accelerator)
        ensures
            n == self.spec_next(),
    {
        match self {
            Accelerator::Auto => Accelerator::Cpu,
            Accelerator::Cpu => Accelerator::Gpu,
            Accelerator::Gpu => Accelerator::Auto,
        }
    }
}

/// Three clicks on the output row or the accelerator row come back to where
/// they started, and each click changes the choice.
pub proof fn three_way_choices_cycle(m: OutputMethod, a: Accelerator)
    ensures
        m.spec_next().spec_next().spec_next() == m,
        m.spec_next() != m,
        a.spec_next().spec_next().spec_next() == a,
        a.spec_next() != a,
{
}

/// Clicking through the history limit from any value reaches the offered
/// choices (0, 100, 500, 1000) and then cycles through them.
pub proof fn history_limit_cycles(limit: i64)
    ensures
        spec_next_history_limit(limit) == 0 || spec_next_history_limit(limit) == 100
            || spec_next_history_limit(limit) == 500 || spec_next_history_limit(limit) == 1000,
        spec_next_history_limit(spec_next_history_limit(spec_next_history_limit(spec_next_history_limit(
            spec_next_history_limit(limit))))) == spec_next_history_limit(limit),
{
}

} // verus!
