//! The streaming transcription worker and the microphone consumer as state
//! machines: each command or chunk they receive leads to the next state and
//! to the one action the thread must perform.
use vstd::prelude::*;

verus! {

/// Where the streaming worker stands.
#[derive(Clone, Copy, Debug, PartialEq, Eq, Structural)]
pub enum WorkerState {
    /// No usable stream: audio is dropped until finalize or cancel.
    Draining,
    /// A stream is open and decoding.
    Streaming,
    /// The worker has answered finalize or seen cancel and exits.
    Finished,
}

/// How the worker begins: without a loaded model, with a model that cannot
/// stream, or when the stream fails to open it drains; otherwise it streams.
pub fn worker_start(model_loaded: bool, supports_streaming: bool, stream_opened: bool) -> (state: WorkerState)
    ensures
        state == if model_loaded && supports_streaming && stream_opened {
            WorkerState::Streaming
        } else {
            WorkerState::Draining
        },
{
    if model_loaded && supports_streaming && stream_opened {
        WorkerState::Streaming
    } else {
        WorkerState::Draining
    }
}

/// A command to the worker, with what the stream reported for it.
pub enum WorkerEvent {
    /// A frame was fed; the stream says which parts of its text changed.
    Feed { committed_changed: bool, tentative_changed: bool },
    /// Finalize was asked; `text` is the stream's full text, `None` if finalizing failed.
    Finalize { text: Option<String> },
    Cancel,
}

/// What the worker does in response.
pub enum WorkerAction {
    Nothing,
    /// Forward the stream's current text to the caller.
    EmitText,
    /// Answer the finalize request.
    Reply(Option<String>),
    /// Discard the stream's state.
    Reset,
}

/// One step of the worker.
pub fn worker_step(state: WorkerState, event: WorkerEvent) -> (next: (WorkerState, WorkerAction))
    ensures
        state == WorkerState::Finished ==> next.0 == WorkerState::Finished && next.1 is Nothing,
        state == WorkerState::Draining ==> match event {
            WorkerEvent::Feed { .. } => next.0 == WorkerState::Draining && next.1 is Nothing,
            WorkerEvent::Finalize { .. } => next.0 == WorkerState::Finished && (next.1 matches WorkerAction::Reply(r) && r is None),
            WorkerEvent::Cancel => next.0 == WorkerState::Finished && next.1 is Nothing,
        },
        state == WorkerState::Streaming ==> match event {
            WorkerEvent::Feed { committed_changed, tentative_changed } => next.0 == WorkerState::Streaming
                && (if committed_changed || tentative_changed { next.1 is EmitText } else { next.1 is Nothing }),
            WorkerEvent::Finalize { text } => next.0 == WorkerState::Finished && (next.1 matches WorkerAction::Reply(r) && r == text),
            WorkerEvent::Cancel => next.0 == WorkerState::Finished && next.1 is Reset,
        },
{
    match state {
        WorkerState::Finished => (WorkerState::Finished, WorkerAction::Nothing),
        WorkerState::Draining => match event {
            WorkerEvent::Feed { .. } => (WorkerState::Draining, WorkerAction::Nothing),
            WorkerEvent::Finalize { .. } => (WorkerState::Finished, WorkerAction::Reply(None)),
            WorkerEvent::Cancel => (WorkerState::Finished, WorkerAction::Nothing),
        },
        WorkerState::Streaming => match event {
            WorkerEvent::Feed { committed_changed, tentative_changed } => {
                if committed_changed || tentative_changed {
                    (WorkerState::Streaming, WorkerAction::EmitText)
                } else {
                    (WorkerState::Streaming, WorkerAction::Nothing)
                }
            },
            WorkerEvent::Finalize { text } => (WorkerState::Finished, WorkerAction::Reply(text)),
            WorkerEvent::Cancel => (WorkerState::Finished, WorkerAction::Reset),
        },
    }
}

/// The microphone consumer: whether it is recording, and whether the caller
/// still waits for the acknowledgement that capture began.
#[derive(Clone, Copy, Debug, PartialEq, Eq, Structural)]
pub struct Consumer {
    pub recording: bool,
    pub ready_pending: bool,
    pub shut_down: bool,
}

/// What reaches the consumer thread.
#[derive(Clone, Copy, Debug, PartialEq, Eq, Structural)]
pub enum ConsumerEvent {
    Start,
    Stop,
    Shutdown,
    /// A chunk of microphone samples arrived.
    Samples,
}

/// What the consumer does with an event.
#[derive(Clone, Copy, Debug, PartialEq, Eq, Structural)]
pub enum ConsumerAction {
    Nothing,
    /// Clear the captured audio, the level meter and the resampler.
    ResetCapture,
    /// Process the chunk into frames and levels.
    Process,
    /// Process the chunk, then acknowledge that capture began.
    ProcessAndAcknowledge,
    /// Flush what remains and reply with the captured audio.
    FlushAndReply,
    /// Leave the loop.
    Exit,
}

impl Consumer {
    pub fn new() -> (c: Self)
        ensures
            !c.recording && !c.ready_pending && !c.shut_down,
    {
        Consumer { recording: false, ready_pending: false, shut_down: false }
    }

    /// One event: start begins a fresh capture awaiting acknowledgement; stop
    /// flushes and replies; samples are processed only while recording, and the
    /// first processed chunk after a start is acknowledged.
    pub fn step(&mut self, event: ConsumerEvent) -> (action: ConsumerAction)
        ensures
            old(self).shut_down ==> action == ConsumerAction::Nothing && *final(self) == *old(self),
            !old(self).shut_down ==> match event {
                ConsumerEvent::Start => action == ConsumerAction::ResetCapture
                    && *final(self) == (Consumer { recording: true, ready_pending: true, shut_down: false }),
                ConsumerEvent::Stop => action == ConsumerAction::FlushAndReply
                    && *final(self) == (Consumer { recording: false, ready_pending: false, shut_down: false }),
                ConsumerEvent::Shutdown => action == ConsumerAction::Exit && final(self).shut_down,
                ConsumerEvent::Samples => if !old(self).recording {
                    action == ConsumerAction::Nothing && *final(self) == *old(self)
                } else if old(self).ready_pending {
                    action == ConsumerAction::ProcessAndAcknowledge && final(self).recording && !final(self).ready_pending
                        && !final(self).shut_down
                } else {
                    action == ConsumerAction::Process && *final(self) == *old(self)
                },
            },
    {
        if self.shut_down {
            return ConsumerAction::Nothing;
        }
        match event {
            ConsumerEvent::Start => {
                self.recording = true;
                self.ready_pending = true;
                ConsumerAction::ResetCapture
            },
            ConsumerEvent::Stop => {
                self.recording = false;
                self.ready_pending = false;
                ConsumerAction::FlushAndReply
            },
            ConsumerEvent::Shutdown => {
                self.shut_down = true;
                ConsumerAction::Exit
            },
            ConsumerEvent::Samples => {
                if !self.recording {
                    ConsumerAction::Nothing
                } else if self.ready_pending {
                    self.ready_pending = false;
                    ConsumerAction::ProcessAndAcknowledge
                } else {
                    ConsumerAction::Process
                }
            },
        }
    }
}

/// How opening the recorder proceeds given its current worker.
#[derive(Clone, Copy, Debug, PartialEq, Eq, Structural)]
pub enum OpenPlan {
    /// A live worker exists: nothing to do.
    AlreadyOpen,
    /// The worker died: close it and build a new stream.
    Rebuild,
    /// No worker yet: build the stream.
    Fresh,
}

pub fn open_plan(has_worker: bool, worker_finished: bool) -> (plan: OpenPlan)
    ensures
        plan == if !has_worker {
            OpenPlan::Fresh
        } else if worker_finished {
            OpenPlan::Rebuild
        } else {
            OpenPlan::AlreadyOpen
        },
{
    if !has_worker {
        OpenPlan::Fresh
    } else if worker_finished {
        OpenPlan::Rebuild
    } else {
        OpenPlan::AlreadyOpen
    }
}

} // verus!
