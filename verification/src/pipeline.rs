//! The live dictation pipeline's bookkeeping: the recording flag that admits one
//! session at a time, where the final transcript comes from, and the per-session
//! configuration supplied by a host.
use vstd::prelude::*;
use crate::transcription::{resolution, resolve_compute_device, spec_parse_accelerator, Accelerator, ComputeDevice, InferenceConfig};
use crate::words::{clean_words, cleaned, is_blank, string_seqs, trim, trimmed};

verus! {

/// Admits one recording session at a time.
pub struct RecordingLatch {
    pub recording: bool,
}

impl RecordingLatch {
    pub fn new() -> (g: Self)
        ensures
            !g.recording,
    {
        RecordingLatch { recording: false }
    }

    /// Claims the latch for a new session; refused while one is recording.
    pub fn begin_start(&mut self) -> (res: Result<(), String>)
        ensures
            res is Ok <==> !old(self).recording,
            final(self).recording,
            res matches Err(e) ==> e@ == "already recording"@,
    {
        if self.recording {
            return Err(String::from_str("already recording"));
        }
        self.recording = true;
        Ok(())
    }

    /// A start that failed releases the latch again.
    pub fn start_failed(&mut self)
        ensures
            !final(self).recording,
    {
        self.recording = false;
    }

    /// Ends the session for a stop; refused when nothing is recording.
    pub fn begin_stop(&mut self) -> (res: Result<(), String>)
        ensures
            res is Ok <==> old(self).recording,
            !final(self).recording,
            res matches Err(e) ==> e@ == "not recording"@,
    {
        if !self.recording {
            return Err(String::from_str("not recording"));
        }
        self.recording = false;
        Ok(())
    }

    /// Abandons whatever session is in flight.
    pub fn cancel(&mut self)
        ensures
            !final(self).recording,
    {
        self.recording = false;
    }
}

/// Where the final transcript of a session comes from.
pub enum TranscriptSource {
    /// The text the live stream produced.
    Streamed(String),
    /// A batch pass over the captured audio.
    Batch,
    /// Nothing was streamed and nothing was captured.
    Empty,
}

/// Chooses the final transcript: a batch pass with the custom words as prompt
/// when there are custom words, the model takes a prompt and audio was
/// captured; otherwise the streamed text; otherwise a batch pass over the
/// captured audio, or nothing when none was captured.
pub fn transcript_source(
    streamed: Option<String>,
    has_custom_words: bool,
    supports_initial_prompt: bool,
    has_samples: bool,
) -> (src: TranscriptSource)
    ensures
        has_custom_words && supports_initial_prompt && has_samples ==> src is Batch,
        !(has_custom_words && supports_initial_prompt && has_samples) ==> match streamed {
            Some(t) => src matches TranscriptSource::Streamed(s) && s == t,
            None => if has_samples { src is Batch } else { src is Empty },
        },
{
    if has_custom_words && supports_initial_prompt && has_samples {
        return TranscriptSource::Batch;
    }
    match streamed {
        Some(text) => TranscriptSource::Streamed(text),
        None => if has_samples { TranscriptSource::Batch } else { TranscriptSource::Empty },
    }
}

/// The error when a model is needed before the models directory was set.
pub fn models_dir_unset() -> (e: String)
    ensures
        e@ == "models directory not set"@,
{
    String::from_str("models directory not set")
}

/// The error when the model file is missing at `path`.
pub fn model_file_missing(path: &str) -> (e: String)
    ensures
        e@ == "model file not found: "@ + path@,
{
    let mut e = String::from_str("model file not found: ");
    e.append(path);
    e
}

/// A host-supplied microphone id: trimmed, and absent when empty.
pub fn clean_device_id(id: Option<&str>) -> (clean: Option<String>)
    ensures
        match id {
            None => clean is None,
            Some(i) => if trimmed(i@).len() == 0 { clean is None } else { clean matches Some(c) && c@ == trimmed(i@) },
        },
{
    match id {
        None => None,
        Some(i) => {
            let t = trim(i);
            if t.as_str().is_empty() {
                None
            } else {
                Some(t)
            }
        },
    }
}

/// Whether the streaming worker hands the session back to the engine: only
/// while the model it streamed with is still the current one.
pub fn keeps_session(current_model: Option<&str>, streamed_model: &str) -> (keep: bool)
    ensures
        keep == (current_model matches Some(m) && m@ == streamed_model@),
{
    match current_model {
        Some(m) => crate::words::str_eq(m, streamed_model),
        None => false,
    }
}

/// How waiting for the stream's final text ended.
pub enum FinalizeReply {
    /// The worker answered: the text, or `None` when no usable stream ran.
    Answered(Option<String>),
    /// The worker is gone.
    Disconnected,
    /// The worker did not answer in time.
    TimedOut,
}

/// The result of finalizing a stream: the worker's answer, `None` when it is
/// gone, and an error when it did not answer within thirty seconds.
pub fn finalize_result(reply: FinalizeReply) -> (res: Result<Option<String>, String>)
    ensures
        reply matches FinalizeReply::Answered(t) ==> res == Ok::<Option<String>, String>(t),
        reply is Disconnected ==> res == Ok::<Option<String>, String>(None),
        reply is TimedOut ==> (res matches Err(e) && e@ == "timed out waiting 30s to finalize"@),
{
    match reply {
        FinalizeReply::Answered(text) => Ok(text),
        FinalizeReply::Disconnected => Ok(None),
        FinalizeReply::TimedOut => Err(String::from_str("timed out waiting 30s to finalize")),
    }
}

/// Settings fixed for the lifetime of one recording session.
pub struct SessionConfig {
    /// The microphone; `None` for the system default.
    pub input_device_id: Option<String>,
    pub custom_words: Vec<String>,
    pub filler_word_removal: bool,
    pub custom_filler_words: Vec<String>,
    /// The word-correction threshold (between 0 and 1) as its IEEE-754 bit pattern.
    pub word_correction_threshold_bits: u64,
    pub inference: InferenceConfig,
}

/// A session configuration as a host hands it over, before it is checked.
pub struct HostSessionConfig {
    pub input_device_id: Option<String>,
    pub custom_words: Vec<String>,
    pub filler_word_removal: bool,
    pub custom_filler_words: Vec<String>,
    /// The threshold's IEEE-754 bit pattern.
    pub word_correction_threshold_bits: u64,
    /// `auto`, `cpu` or `gpu`.
    pub accelerator: String,
    /// A persisted compute-device id; empty (or blank) for automatic selection.
    pub gpu_device_id: String,
}

/// The bit patterns of the finite numbers from 0 to 1 inclusive: those from
/// positive zero up to one, and negative zero.
pub open spec fn is_unit_interval_bits(bits: u64) -> bool {
    bits <= 0x3ff0_0000_0000_0000 || bits == 0x8000_0000_0000_0000
}

/// The message for a threshold that is not a finite number from 0 to 1.
pub open spec fn invalid_threshold_message() -> Seq<char> {
    "wordCorrectionThreshold must be a finite number between 0 and 1"@
}

/// The microphone id as a session uses it: trimmed, and absent when blank.
pub open spec fn spec_clean_device_id(id: Option<String>) -> Option<Seq<char>> {
    match id {
        None => None,
        Some(i) => if trimmed(i@).len() == 0 { None } else { Some(trimmed(i@)) },
    }
}

impl SessionConfig {
    /// Checks a host's session configuration, in this order: the threshold must
    /// be a finite number from 0 to 1, the accelerator must parse, and the
    /// (trimmed) compute-device id must resolve against `devices`. The checked
    /// configuration has the microphone id and the word lists trimmed, blank
    /// entries dropped.
    pub fn from_host(config: HostSessionConfig, devices: &[ComputeDevice]) -> (res: Result<SessionConfig, String>)
        ensures
            !is_unit_interval_bits(config.word_correction_threshold_bits) ==> (res matches Err(e)
                && e@ == invalid_threshold_message()),
            is_unit_interval_bits(config.word_correction_threshold_bits) ==> match spec_parse_accelerator(config.accelerator@) {
                Err(m) => res matches Err(e) && e@ == m,
                Ok(a) => match resolution(trimmed(config.gpu_device_id@), devices@) {
                    Err(m) => res matches Err(e) && e@ == m,
                    Ok(n) => res matches Ok(c)
                        && c.inference == (InferenceConfig { accelerator: a, gpu_device: n })
                        && string_seqs(c.custom_words@) == cleaned(string_seqs(config.custom_words@))
                        && string_seqs(c.custom_filler_words@) == cleaned(string_seqs(config.custom_filler_words@))
                        && c.filler_word_removal == config.filler_word_removal
                        && c.word_correction_threshold_bits == config.word_correction_threshold_bits
                        && match c.input_device_id {
                            None => spec_clean_device_id(config.input_device_id) is None,
                            Some(d) => spec_clean_device_id(config.input_device_id) == Some(d@),
                        },
                },
            },
    {
        let bits = config.word_correction_threshold_bits;
        if !(bits <= 0x3ff0_0000_0000_0000 || bits == 0x8000_0000_0000_0000) {
            return Err(String::from_str("wordCorrectionThreshold must be a finite number between 0 and 1"));
        }
        let accelerator = match Accelerator::parse(config.accelerator.as_str()) {
            Ok(a) => a,
            Err(e) => return Err(e),
        };
        let gpu_id = trim(config.gpu_device_id.as_str());
        let gpu_device = match resolve_compute_device(gpu_id.as_str(), devices) {
            Ok(n) => n,
            Err(e) => return Err(e),
        };
        let input_device_id = match &config.input_device_id {
            Some(id) => clean_device_id(Some(id.as_str())),
            None => None,
        };
        Ok(SessionConfig {
            input_device_id,
            custom_words: clean_words(config.custom_words.as_slice()),
            filler_word_removal: config.filler_word_removal,
            custom_filler_words: clean_words(config.custom_filler_words.as_slice()),
            word_correction_threshold_bits: bits,
            inference: InferenceConfig { accelerator, gpu_device },
        })
    }
}

} // verus!
