//! The recording session as the desktop application drives it: what each
//! shortcut press and each service event does to the recording state, and when
//! an idle model may be unloaded.
use vstd::prelude::*;
use crate::settings::ModelUnloadTimeout;

verus! {

/// Where a recording stands.
#[derive(Clone, Copy, Debug, PartialEq, Eq, Structural)]
pub enum RecordingState {
    Idle,
    /// Start was requested; the microphone is not capturing yet.
    Starting,
    Recording,
    /// Stop was requested; the transcript is being finalized.
    Transcribing,
}

/// What the application must ask the dictation service to do.
pub enum Command {
    Start,
    Stop { model_id: String },
    Nothing,
}

/// A pending unload: it fires after `delay_secs` and unloads the model only if
/// no newer session activity replaced `generation`.
pub struct UnloadTimer {
    pub generation: u64,
    pub delay_secs: u64,
}

/// The generation after `g`; the counter wraps around.
pub open spec fn next_generation(g: u64) -> u64 {
    if g == u64::MAX { 0 } else { (g + 1) as u64 }
}

pub struct Session {
    pub state: RecordingState,
    /// The model of the recording in progress.
    pub active_model_id: Option<String>,
    /// Bumped whenever a pending unload must no longer fire.
    pub unload_generation: u64,
}

fn bump(g: u64) -> (n: u64)
    ensures
        n == next_generation(g),
{
    if g == u64::MAX { 0 } else { g + 1 }
}

impl Session {
    /// An idle session.
    pub fn new() -> (s: Self)
        ensures
            s.state == RecordingState::Idle,
            s.active_model_id is None,
            s.unload_generation == 0,
    {
        Session { state: RecordingState::Idle, active_model_id: None, unload_generation: 0 }
    }

    /// The push-to-talk shortcut: starts a recording when idle, stops it while
    /// recording, and is ignored while a start or a stop is under way.
    pub fn toggle(&mut self) -> (cmd: Command)
        ensures
            old(self).state == RecordingState::Idle ==> {
                &&& cmd is Start
                &&& final(self).state == RecordingState::Starting
                &&& final(self).unload_generation == next_generation(old(self).unload_generation)
                &&& final(self).active_model_id == old(self).active_model_id
            },
            old(self).state == RecordingState::Recording ==> {
                &&& final(self).state == RecordingState::Transcribing
                &&& final(self).unload_generation == old(self).unload_generation
                &&& final(self).active_model_id == old(self).active_model_id
                &&& (cmd matches Command::Stop { model_id } && model_id@ == match old(self).active_model_id {
                    Some(m) => m@,
                    None => "unknown"@,
                })
            },
            (old(self).state == RecordingState::Starting || old(self).state == RecordingState::Transcribing) ==> {
                &&& cmd is Nothing
                &&& *final(self) == *old(self)
            },
    {
        match self.state {
            RecordingState::Idle => {
                self.unload_generation = bump(self.unload_generation);
                self.state = RecordingState::Starting;
                Command::Start
            },
            RecordingState::Recording => {
                self.state = RecordingState::Transcribing;
                let model_id = match &self.active_model_id {
                    Some(m) => String::from_str(m.as_str()),
                    None => String::from_str("unknown"),
                };
                Command::Stop { model_id }
            },
            RecordingState::Starting | RecordingState::Transcribing => Command::Nothing,
        }
    }

    /// The cancel shortcut: abandons whatever is under way. Returns whether the
    /// service must be told to cancel.
    pub fn cancel(&mut self) -> (cancelled: bool)
        ensures
            cancelled == (old(self).state != RecordingState::Idle),
            final(self).state == RecordingState::Idle,
            final(self).active_model_id == old(self).active_model_id,
            final(self).unload_generation == old(self).unload_generation,
    {
        if self.state != RecordingState::Idle {
            self.state = RecordingState::Idle;
            true
        } else {
            false
        }
    }

    /// The microphone is capturing for `model_id`.
    pub fn on_started(&mut self, model_id: String)
        ensures
            final(self).state == RecordingState::Recording,
            final(self).active_model_id == Some(model_id),
            final(self).unload_generation == old(self).unload_generation,
    {
        self.state = RecordingState::Recording;
        self.active_model_id = Some(model_id);
    }

    /// The transcript is ready (or failed). The session becomes idle and, unless
    /// the model is kept forever, an unload is scheduled.
    pub fn on_finished(&mut self, unload: ModelUnloadTimeout) -> (timer: Option<UnloadTimer>)
        ensures
            final(self).state == RecordingState::Idle,
            final(self).active_model_id is None,
            match unload.spec_delay_secs() {
                None => timer is None && final(self).unload_generation == old(self).unload_generation,
                Some(d) => timer matches Some(t) && t.delay_secs == d
                    && t.generation == next_generation(old(self).unload_generation)
                    && final(self).unload_generation == t.generation,
            },
    {
        self.state = RecordingState::Idle;
        self.active_model_id = None;
        match unload.delay_secs() {
            None => None,
            Some(delay_secs) => {
                self.unload_generation = bump(self.unload_generation);
                Some(UnloadTimer { generation: self.unload_generation, delay_secs })
            },
        }
    }

    /// The service confirmed the cancellation.
    pub fn on_cancelled(&mut self)
        ensures
            final(self).state == RecordingState::Idle,
            final(self).active_model_id is None,
            final(self).unload_generation == old(self).unload_generation,
    {
        self.state = RecordingState::Idle;
        self.active_model_id = None;
    }

    /// The service reported an error: a start that failed leaves the session idle.
    pub fn on_error(&mut self)
        ensures
            final(self).state == if old(self).state == RecordingState::Starting {
                RecordingState::Idle
            } else {
                old(self).state
            },
            final(self).active_model_id == old(self).active_model_id,
            final(self).unload_generation == old(self).unload_generation,
    {
        if self.state == RecordingState::Starting {
            self.state = RecordingState::Idle;
        }
    }

    /// Whether a timer scheduled with `generation` may unload the model now.
    pub fn unload_due(&self, generation: u64) -> (due: bool)
        ensures
            due == (self.unload_generation == generation),
    {
        self.unload_generation == generation
    }

    /// Whether the overlay shows the transcribing state.
    pub fn is_transcribing(&self) -> (t: bool)
        ensures
            t == (self.state == RecordingState::Transcribing),
    {
        self.state == RecordingState::Transcribing
    }
}

/// Starting a new recording always invalidates a pending unload: the model is
/// never unloaded under a recording that began after the unload was scheduled.
pub proof fn new_recording_invalidates_unload(generation: u64)
    ensures
        next_generation(generation) != generation,
{
}

/// The number of the history limit to save with: the configured limit, or 0
/// (nothing kept) when it is negative or too large for the platform.
pub fn history_limit_for_save(limit: i64) -> (n: usize)
    ensures
        limit < 0 ==> n == 0,
        0 <= limit <= usize::MAX ==> n == limit,
        limit > usize::MAX ==> n == 0,
{
    if limit < 0 {
        0
    } else if (limit as u64) <= (usize::MAX as u64) {
        limit as usize
    } else {
        0
    }
}

/// The error to show after a recording finished: an insertion failure wins,
/// then a failure to save history, then the transcription error; `None` leaves
/// the shown error as it is.
pub fn error_after_finish(
    result: &Result<String, String>,
    save_error: Option<&str>,
    delivery_error: Option<&str>,
) -> (shown: Option<String>)
    ensures
        delivery_error matches Some(d) ==> (shown matches Some(s)
            && s@ == "Transcription completed, but text insertion failed: "@ + d@),
        delivery_error is None ==> (save_error matches Some(e) ==> (shown matches Some(s)
            && s@ == "Failed to save history: "@ + e@)),
        delivery_error is None && save_error is None ==> match result {
            Ok(_) => shown is None,
            Err(e) => shown matches Some(s) && s@ == e@,
        },
{
    if let Some(d) = delivery_error {
        let mut s = String::from_str("Transcription completed, but text insertion failed: ");
        s.append(d);
        return Some(s);
    }
    if let Some(e) = save_error {
        let mut s = String::from_str("Failed to save history: ");
        s.append(e);
        return Some(s);
    }
    match result {
        Ok(_) => None,
        Err(e) => Some(String::from_str(e.as_str())),
    }
}

/// The transcript the recording overlay shows: the live text, committed part
/// first, or a prompt to speak while there is none.
pub fn overlay_text(committed: &str, tentative: &str) -> (text: String)
    ensures
        committed@.len() == 0 && tentative@.len() == 0 ==> text@ == "Start speaking..."@,
        !(committed@.len() == 0 && tentative@.len() == 0) ==> text@ == committed@ + tentative@,
{
    if committed.is_empty() && tentative.is_empty() {
        return String::from_str("Start speaking...");
    }
    let mut text = String::from_str(committed);
    text.append(tentative);
    text
}

/// The overlay's status line.
pub fn overlay_status(transcribing: bool) -> (status: &'static str)
    ensures
        status@ == if transcribing { "Transcribing..."@ } else { "Listening"@ },
{
    if transcribing { "Transcribing..." } else { "Listening" }
}

} // verus!
