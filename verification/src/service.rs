//! Decisions of the dictation service: which model records, how the session is
//! configured, and where a finished transcript is delivered.
use vstd::prelude::*;
use crate::models::ModelStatus;
use crate::settings::{Accelerator as SettingsAccelerator, OutputMethod, OutputSettings, Settings};
use crate::transcription::{resolution, resolve_compute_device, Accelerator, ComputeDevice, InferenceConfig};
use crate::words::{is_blank, str_eq, trimmed};

verus! {

/// `i` is the first downloaded model whose id is `id`.
pub open spec fn first_downloaded_with_id(models: Seq<ModelStatus>, id: Seq<char>, i: int) -> bool {
    &&& 0 <= i < models.len()
    &&& models[i].is_downloaded && models[i].id@ == id
    &&& forall|j: int| 0 <= j < i ==> !(#[trigger] models[j].is_downloaded && models[j].id@ == id)
}

/// `i` is the first downloaded model.
pub open spec fn first_downloaded(models: Seq<ModelStatus>, i: int) -> bool {
    &&& 0 <= i < models.len()
    &&& models[i].is_downloaded
    &&& forall|j: int| 0 <= j < i ==> !(#[trigger] models[j].is_downloaded)
}

/// No downloaded model has the id `id`.
pub open spec fn no_download_with_id(models: Seq<ModelStatus>, id: Seq<char>) -> bool {
    forall|j: int| 0 <= j < models.len() ==> !(#[trigger] models[j].is_downloaded && models[j].id@ == id)
}

/// The position of the first downloaded model whose id is `id`.
pub(crate) fn selected_download(models: &[ModelStatus], id: &str) -> (found: Option<usize>)
    ensures
        found matches Some(i) ==> first_downloaded_with_id(models@, id@, i as int),
        found is None ==> no_download_with_id(models@, id@),
{
    let mut i: usize = 0;
    while i < models.len()
        invariant
            i <= models.len(),
            forall|j: int| 0 <= j < i ==> !(#[trigger] models@[j].is_downloaded && models@[j].id@ == id@),
        decreases models.len() - i,
    {
        if models[i].is_downloaded && str_eq(models[i].id.as_str(), id) {
            return Some(i);
        }
        i = i + 1;
    }
    None
}

/// The position of the first downloaded model at or after `start`.
pub(crate) fn first_download_from(models: &[ModelStatus], start: usize) -> (found: Option<usize>)
    requires
        start <= models.len(),
    ensures
        found matches Some(j) ==> start <= j < models@.len() && models@[j as int].is_downloaded
            && forall|k: int| start <= k < j ==> !(#[trigger] models@[k].is_downloaded),
        found is None ==> forall|k: int| start <= k < models@.len() ==> !(#[trigger] models@[k].is_downloaded),
{
    let mut j: usize = start;
    while j < models.len()
        invariant
            start <= j <= models.len(),
            forall|k: int| start <= k < j ==> !(#[trigger] models@[k].is_downloaded),
        decreases models.len() - j,
    {
        if models[j].is_downloaded {
            return Some(j);
        }
        j = j + 1;
    }
    None
}

/// The model a recording uses: the configured one when it is downloaded,
/// otherwise the first downloaded model; `None` when nothing is downloaded.
pub fn selected_model(models: &[ModelStatus], configured: &str) -> (pick: Option<usize>)
    ensures
        pick matches Some(i) ==> (first_downloaded_with_id(models@, configured@, i as int)
            || (no_download_with_id(models@, configured@) && first_downloaded(models@, i as int))),
        pick is None ==> forall|j: int| 0 <= j < models@.len() ==> !(#[trigger] models@[j].is_downloaded),
{
    match selected_download(models, configured) {
        Some(i) => Some(i),
        None => first_download_from(models, 0),
    }
}

/// What a request to start recording leads to.
pub enum StartPlan {
    /// A recording is already running: the request is ignored.
    AlreadyRecording,
    /// No model is downloaded: this error is shown instead.
    NoModel(String),
    /// Record with the model at this position of the list.
    Record(usize),
}

/// The error shown when a recording is requested with no model on disk.
pub open spec fn no_model_message() -> Seq<char> {
    "No speech model installed. Download one from the Models page."@
}

/// Decides a start request: ignored while recording; otherwise the model of
/// `selected_model`, or the no-model error when nothing is downloaded.
pub fn start_plan(recording: bool, models: &[ModelStatus], configured: &str) -> (plan: StartPlan)
    ensures
        recording ==> plan is AlreadyRecording,
        !recording ==> match plan {
            StartPlan::AlreadyRecording => false,
            StartPlan::NoModel(m) => m@ == no_model_message()
                && forall|j: int| 0 <= j < models@.len() ==> !(#[trigger] models@[j].is_downloaded),
            StartPlan::Record(i) => first_downloaded_with_id(models@, configured@, i as int)
                || (no_download_with_id(models@, configured@) && first_downloaded(models@, i as int)),
        },
{
    if recording {
        return StartPlan::AlreadyRecording;
    }
    match selected_model(models, configured) {
        Some(i) => StartPlan::Record(i),
        None => StartPlan::NoModel(String::from_str("No speech model installed. Download one from the Models page.")),
    }
}

/// `value` itself unless it is empty or all white space.
pub fn non_empty(value: &str) -> (v: Option<String>)
    ensures
        trimmed(value@).len() == 0 ==> v is None,
        trimmed(value@).len() > 0 ==> (v matches Some(s) && s@ == value@),
{
    if is_blank(value) {
        None
    } else {
        Some(String::from_str(value))
    }
}

/// The extra time to keep recording after stop is requested; negative values mean none.
pub fn recording_buffer_ms(extra_recording_buffer_ms: i64) -> (ms: u64)
    ensures
        ms == if extra_recording_buffer_ms < 0 { 0 } else { extra_recording_buffer_ms },
{
    if extra_recording_buffer_ms < 0 {
        0
    } else {
        extra_recording_buffer_ms as u64
    }
}

/// The engine's accelerator for the accelerator chosen in settings.
pub fn engine_accelerator(a: SettingsAccelerator) -> (e: Accelerator)
    ensures
        e == match a {
            SettingsAccelerator::Auto => Accelerator::Auto,
            SettingsAccelerator::Cpu => Accelerator::Cpu,
            SettingsAccelerator::Gpu => Accelerator::Gpu,
        },
{
    match a {
        SettingsAccelerator::Auto => Accelerator::Auto,
        SettingsAccelerator::Cpu => Accelerator::Cpu,
        SettingsAccelerator::Gpu => Accelerator::Gpu,
    }
}

/// The inference configuration for a recording: the chosen accelerator and the
/// persisted compute device resolved against the devices present now.
pub fn inference_config(settings: &Settings, devices: &[ComputeDevice]) -> (res: Result<InferenceConfig, String>)
    ensures
        match resolution(settings.inference.gpu_device_id@, devices@) {
            Ok(n) => res matches Ok(c) && c.gpu_device == n && c.accelerator == match settings.inference.accelerator {
                SettingsAccelerator::Auto => Accelerator::Auto,
                SettingsAccelerator::Cpu => Accelerator::Cpu,
                SettingsAccelerator::Gpu => Accelerator::Gpu,
            },
            Err(m) => res matches Err(e) && e@ == m,
        },
{
    let accelerator = engine_accelerator(settings.inference.accelerator);
    match resolve_compute_device(settings.inference.gpu_device_id.as_str(), devices) {
        Ok(gpu_device) => Ok(InferenceConfig { accelerator, gpu_device }),
        Err(e) => Err(e),
    }
}

/// What to do with a finished, non-blank transcript.
pub enum Delivery {
    /// Keep it in the window only.
    Nothing,
    /// Paste `text` into the focused application, then send `submit_key` if set.
    Paste { text: String, submit_key: Option<&'static str> },
    /// Put `text` on the clipboard.
    Clipboard { text: String },
}

/// The text delivered for `text`: with a trailing space when configured.
pub open spec fn delivered_text(text: Seq<char>, append_trailing_space: bool) -> Seq<char> {
    if append_trailing_space { text + " "@ } else { text }
}

/// How a finished transcript is delivered according to the output settings.
pub fn plan_delivery(text: &str, output: &OutputSettings) -> (d: Delivery)
    ensures
        output.method == OutputMethod::Nothing ==> d is Nothing,
        output.method == OutputMethod::Clipboard ==> (d matches Delivery::Clipboard { text: t }
            && t@ == delivered_text(text@, output.append_trailing_space)),
        output.method == OutputMethod::Paste ==> (d matches Delivery::Paste { text: t, submit_key: k }
            && t@ == delivered_text(text@, output.append_trailing_space)
            && (output.auto_submit ==> (k matches Some(name) && name@ == match output.auto_submit_key {
                crate::settings::AutoSubmitKey::Enter => "enter"@,
                crate::settings::AutoSubmitKey::ControlEnter => "ctrl_enter"@,
                crate::settings::AutoSubmitKey::CommandEnter => "cmd_enter"@,
            }))
            && (!output.auto_submit ==> k is None)),
{
    if output.method == OutputMethod::Nothing {
        return Delivery::Nothing;
    }
    let mut delivered = String::from_str(text);
    if output.append_trailing_space {
        delivered.append(" ");
    }
    match output.method {
        OutputMethod::Paste => {
            let submit_key = if output.auto_submit { Some(output.auto_submit_key.key_name()) } else { None };
            Delivery::Paste { text: delivered, submit_key }
        },
        OutputMethod::Clipboard => Delivery::Clipboard { text: delivered },
        OutputMethod::Nothing => Delivery::Nothing,
    }
}

/// Whether a finished transcript is delivered at all: only a successful, non-blank one.
pub fn should_deliver(result: &Result<String, String>) -> (deliver: bool)
    ensures
        deliver == (result matches Ok(t) && trimmed(t@).len() > 0),
{
    match result {
        Ok(text) => !is_blank(text.as_str()),
        Err(_) => false,
    }
}

/// Whether the progress shown for `id` is kept after the model list changes:
/// only while that model is still downloading.
pub fn keeps_progress(id: &str, models: &[ModelStatus]) -> (keep: bool)
    ensures
        keep == exists|j: int| 0 <= j < models@.len() && #[trigger] models@[j].id@ == id@ && models@[j].is_downloading,
{
    let mut i: usize = 0;
    while i < models.len()
        invariant
            i <= models.len(),
            forall|j: int| 0 <= j < i ==> !(#[trigger] models@[j].id@ == id@ && models@[j].is_downloading),
        decreases models.len() - i,
    {
        if models[i].is_downloading && str_eq(models[i].id.as_str(), id) {
            return true;
        }
        i = i + 1;
    }
    false
}

} // verus!
