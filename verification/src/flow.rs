//! The decisions of the recording lifecycle, as two state machines.
//!
//! The recorder follows the hotkey: a press arms it, a hold of `MIN_HOLD_MS`
//! starts the microphone, a release either replays a short tap or stops the
//! capture, and a ticker stops it by itself after `MAX_RECORD_SECS`.
//! The pipeline follows one stopped capture: encode, transcribe (once more after
//! a failure), optionally rephrase, inject, and report the outcome to the overlay.
//!
//! Both machines only decide. Whoever drives them performs each returned
//! action and feeds back what came of it as the next event.
use vstd::prelude::*;
use vstd::string::*;
use vstd::utf8::*;

use crate::keywords::{
    detect_keyword, keyword_result, known_format, lemma_format_from_format_phrase,
    lemma_known_formats_have_rules, matching_text, opt_chars, rephrase_action,
};
use crate::prompt::{format_prompt_text, format_style, guidelines_text, system_prompt, FormatStyle};
use crate::text::{chars_of, lowercase, trim_white_space, trim_white_space_range, uppercase};

verus! {

/// A press shorter than this, in milliseconds, is a tap: it is replayed, not recorded.
pub const MIN_HOLD_MS: u64 = 200;

/// A recording stops by itself once it has run this many seconds.
pub const MAX_RECORD_SECS: u64 = 60;

/// A failed transcription is tried once more after this many milliseconds, for a
/// service that was slow to wake up.
pub const TRANSCRIBE_RETRY_DELAY_MS: u64 = 3000;

// ── Overlay events ───────────────────────────────────────────────────────────
/// Why a recording ended without text.
#[derive(Clone, Copy, PartialEq, Eq, Debug)]
pub enum ErrorReport {
    /// The microphone could not be started.
    CaptureFailed,
    /// The microphone could not be stopped.
    StopFailed,
    /// The capture held no samples.
    NoAudioCaptured,
    /// The samples could not be encoded.
    EncodeFailed,
    /// The transcription service failed.
    TranscribeFailed,
    /// The transcription was blank.
    NoSpeechDetected,
    /// The text could not be typed into the focused application.
    InjectionFailed,
}

/// What the overlay window is told.
#[derive(Clone, Copy, PartialEq, Eq, Debug)]
pub enum OverlayEvent {
    RecordingStarted,
    /// Whole seconds since the hotkey was pressed.
    RecordingTick(u64),
    ProcessingStarted,
    ProcessingGpt,
    /// The number of bytes of text that were injected.
    RecordingSuccess(usize),
    RecordingError(ErrorReport),
}

pub open spec fn overlay_event_name(e: OverlayEvent) -> Seq<char> {
    match e {
        OverlayEvent::RecordingStarted => "recording-started"@,
        OverlayEvent::RecordingTick(_) => "recording-tick"@,
        OverlayEvent::ProcessingStarted => "processing-started"@,
        OverlayEvent::ProcessingGpt => "processing-gpt"@,
        OverlayEvent::RecordingSuccess(_) => "recording-success"@,
        OverlayEvent::RecordingError(_) => "recording-error"@,
    }
}

impl OverlayEvent {
    /// The name under which the event is emitted to the overlay window.
    pub fn name(&self) -> (r: &'static str)
        ensures
            r@ == overlay_event_name(*self),
    {
        match self {
            OverlayEvent::RecordingStarted => "recording-started",
            OverlayEvent::RecordingTick(_) => "recording-tick",
            OverlayEvent::ProcessingStarted => "processing-started",
            OverlayEvent::ProcessingGpt => "processing-gpt",
            OverlayEvent::RecordingSuccess(_) => "recording-success",
            OverlayEvent::RecordingError(_) => "recording-error",
        }
    }
}

/// The message shown for an error report; `detail` is what the failed call said.
pub open spec fn error_text(report: ErrorReport, detail: Seq<char>) -> Seq<char> {
    match report {
        ErrorReport::NoAudioCaptured => "No audio captured"@,
        ErrorReport::NoSpeechDetected => "No speech detected"@,
        ErrorReport::InjectionFailed => "Injection failed: "@ + detail,
        _ => detail,
    }
}

/// The message shown for an error report; `detail` is what the failed call said.
pub fn error_message(report: ErrorReport, detail: &str) -> (r: String)
    ensures
        r@ == error_text(report, detail@),
{
    match report {
        ErrorReport::NoAudioCaptured => String::from_str("No audio captured"),
        ErrorReport::NoSpeechDetected => String::from_str("No speech detected"),
        ErrorReport::InjectionFailed => {
            let mut s = String::from_str("Injection failed: ");
            s.append(detail);
            s
        },
        _ => String::from_str(detail),
    }
}

// ── Actions ──────────────────────────────────────────────────────────────────
/// What the driver of the machines is asked to do.
#[derive(Debug, PartialEq, Eq)]
pub enum FlowAction {
    /// Tell the overlay window.
    Emit(OverlayEvent),
    /// Wait `MIN_HOLD_MS`, then send `HoldElapsed`.
    WaitForHold,
    /// Start the microphone, then send `CaptureStarted` or `CaptureFailed`.
    StartCapture,
    /// Send `Tick` every second from now on, with the time of the press.
    StartTicker,
    /// Stop sending `Tick`.
    StopTicker,
    /// Send `Released` now, as if the hotkey had been let go.
    ReleaseNow,
    /// Replay the hotkey's own key press in the focused application.
    ReplayKey,
    /// Stop the microphone and start a pipeline with what it captured.
    StopCapture,
    /// Encode the captured samples.
    Encode,
    /// Send the encoded audio to the transcription service.
    Transcribe,
    /// Wait `TRANSCRIBE_RETRY_DELAY_MS`, then send the encoded audio again.
    RetryTranscribe,
    /// Ask the chat model to rewrite `text` for `action`, in `format` where one
    /// was named.
    Rephrase { text: String, action: String, format: Option<String> },
    /// Type `text` into the focused application.
    Inject { text: String },
}

/// An action, with its text as characters.
pub enum FlowActionModel {
    Emit(OverlayEvent),
    WaitForHold,
    StartCapture,
    StartTicker,
    StopTicker,
    ReleaseNow,
    ReplayKey,
    StopCapture,
    Encode,
    Transcribe,
    RetryTranscribe,
    Rephrase { text: Seq<char>, action: Seq<char>, format: Option<Seq<char>> },
    Inject { text: Seq<char> },
}

impl View for FlowAction {
    type V = FlowActionModel;

    open spec fn view(&self) -> FlowActionModel {
        match self {
            FlowAction::Emit(e) => FlowActionModel::Emit(*e),
            FlowAction::WaitForHold => FlowActionModel::WaitForHold,
            FlowAction::StartCapture => FlowActionModel::StartCapture,
            FlowAction::StartTicker => FlowActionModel::StartTicker,
            FlowAction::StopTicker => FlowActionModel::StopTicker,
            FlowAction::ReleaseNow => FlowActionModel::ReleaseNow,
            FlowAction::ReplayKey => FlowActionModel::ReplayKey,
            FlowAction::StopCapture => FlowActionModel::StopCapture,
            FlowAction::Encode => FlowActionModel::Encode,
            FlowAction::Transcribe => FlowActionModel::Transcribe,
            FlowAction::RetryTranscribe => FlowActionModel::RetryTranscribe,
            FlowAction::Rephrase { text, action, format } => FlowActionModel::Rephrase {
                text: text@,
                action: action@,
                format: opt_chars(*format),
            },
            FlowAction::Inject { text } => FlowActionModel::Inject { text: text@ },
        }
    }
}

/// The actions of `v`, with their text as characters.
pub open spec fn actions_view(v: Seq<FlowAction>) -> Seq<FlowActionModel> {
    v.map_values(|a: FlowAction| a@)
}

// ── The recorder ─────────────────────────────────────────────────────────────
/// What the recorder keeps between events.
#[derive(Clone, Copy, PartialEq, Eq, Debug)]
pub struct RecorderState {
    /// The hotkey is down and its recording has not been released yet.
    pub held: bool,
    /// When the hotkey went down, in milliseconds of a monotonic clock.
    pub pressed_at_ms: Option<u64>,
}

/// What happens to the recorder.
#[derive(Clone, Copy, PartialEq, Eq, Debug)]
pub enum RecorderEvent {
    /// The hotkey went down.
    Pressed { now_ms: u64 },
    /// `MIN_HOLD_MS` passed after a press.
    HoldElapsed,
    /// The microphone started.
    CaptureStarted,
    /// The microphone could not be started.
    CaptureFailed,
    /// A second passed on the ticker started at `started_ms`.
    Tick { started_ms: u64, now_ms: u64 },
    /// The hotkey went up, or the recording reached its limit; `capturing` says
    /// whether the microphone is running at that moment.
    Released { now_ms: u64, capturing: bool },
}

/// How the recorder starts: idle.
pub open spec fn recorder_idle() -> RecorderState {
    RecorderState { held: false, pressed_at_ms: None }
}

/// `later - earlier`, or 0 where the clock went backwards.
pub open spec fn elapsed_ms(earlier: u64, later: u64) -> u64 {
    if later >= earlier {
        (later - earlier) as u64
    } else {
        0
    }
}

/// How long the hotkey was held at `now_ms`; 0 where the press time is unknown.
pub open spec fn hold_ms(pressed_at_ms: Option<u64>, now_ms: u64) -> u64 {
    match pressed_at_ms {
        Some(t) => elapsed_ms(t, now_ms),
        None => 0,
    }
}

/// What a release at `now_ms` does to the recorder.
pub open spec fn release_step(s: RecorderState, now_ms: u64, capturing: bool) -> (
    RecorderState,
    Seq<FlowActionModel>,
) {
    let after = recorder_idle();
    if !s.held {
        (after, seq![])
    } else if hold_ms(s.pressed_at_ms, now_ms) < MIN_HOLD_MS {
        (after, seq![FlowActionModel::ReplayKey])
    } else if !capturing {
        (after, seq![])
    } else {
        (after, seq![FlowActionModel::StopCapture])
    }
}

/// The next state of the recorder and the actions it asks for.
pub open spec fn recorder_step(s: RecorderState, e: RecorderEvent) -> (RecorderState, Seq<FlowActionModel>) {
    match e {
        RecorderEvent::Pressed { now_ms } => {
            if s.held {
                (s, seq![])
            } else {
                (
                    RecorderState { held: true, pressed_at_ms: Some(now_ms) },
                    seq![FlowActionModel::WaitForHold],
                )
            }
        },
        RecorderEvent::HoldElapsed => {
            if !s.held {
                (s, seq![])
            } else {
                (
                    s,
                    seq![
                        FlowActionModel::Emit(OverlayEvent::RecordingStarted),
                        FlowActionModel::StartCapture,
                    ],
                )
            }
        },
        RecorderEvent::CaptureStarted => (s, seq![FlowActionModel::StartTicker]),
        RecorderEvent::CaptureFailed => (
            RecorderState { held: false, ..s },
            seq![FlowActionModel::Emit(OverlayEvent::RecordingError(ErrorReport::CaptureFailed))],
        ),
        RecorderEvent::Tick { started_ms, now_ms } => {
            let secs = (elapsed_ms(started_ms, now_ms) / 1000) as u64;
            if !s.held {
                (s, seq![FlowActionModel::StopTicker])
            } else if secs >= MAX_RECORD_SECS {
                (
                    s,
                    seq![
                        FlowActionModel::Emit(OverlayEvent::RecordingTick(secs)),
                        FlowActionModel::ReleaseNow,
                        FlowActionModel::StopTicker,
                    ],
                )
            } else {
                (s, seq![FlowActionModel::Emit(OverlayEvent::RecordingTick(secs))])
            }
        },
        RecorderEvent::Released { now_ms, capturing } => release_step(s, now_ms, capturing),
    }
}

fn elapsed(earlier: u64, later: u64) -> (r: u64)
    ensures
        r == elapsed_ms(earlier, later),
{
    if later >= earlier {
        later - earlier
    } else {
        0
    }
}

impl RecorderState {
    /// An idle recorder.
    pub fn new() -> (r: RecorderState)
        ensures
            r == recorder_idle(),
    {
        RecorderState { held: false, pressed_at_ms: None }
    }

    /// Takes `event` and returns the actions it calls for, in order.
    pub fn handle(&mut self, event: RecorderEvent) -> (actions: Vec<FlowAction>)
        ensures
            (*final(self), actions_view(actions@)) == recorder_step(*old(self), event),
    {
        let s = *self;
        let mut actions: Vec<FlowAction> = Vec::new();
        match event {
            RecorderEvent::Pressed { now_ms } => {
                if !s.held {
                    self.held = true;
                    self.pressed_at_ms = Some(now_ms);
                    actions.push(FlowAction::WaitForHold);
                }
            },
            RecorderEvent::HoldElapsed => {
                if s.held {
                    actions.push(FlowAction::Emit(OverlayEvent::RecordingStarted));
                    actions.push(FlowAction::StartCapture);
                }
            },
            RecorderEvent::CaptureStarted => {
                actions.push(FlowAction::StartTicker);
            },
            RecorderEvent::CaptureFailed => {
                self.held = false;
                actions.push(
                    FlowAction::Emit(OverlayEvent::RecordingError(ErrorReport::CaptureFailed)),
                );
            },
            RecorderEvent::Tick { started_ms, now_ms } => {
                let secs = elapsed(started_ms, now_ms) / 1000;
                if !s.held {
                    actions.push(FlowAction::StopTicker);
                } else {
                    actions.push(FlowAction::Emit(OverlayEvent::RecordingTick(secs)));
                    if secs >= MAX_RECORD_SECS {
                        actions.push(FlowAction::ReleaseNow);
                        actions.push(FlowAction::StopTicker);
                    }
                }
            },
            RecorderEvent::Released { now_ms, capturing } => {
                self.held = false;
                self.pressed_at_ms = None;
                if s.held {
                    let hold = match s.pressed_at_ms {
                        Some(t) => elapsed(t, now_ms),
                        None => 0,
                    };
                    if hold < MIN_HOLD_MS {
                        actions.push(FlowAction::ReplayKey);
                    } else if capturing {
                        actions.push(FlowAction::StopCapture);
                    }
                }
            },
        }
        assert(actions_view(actions@) =~= recorder_step(s, event).1);
        actions
    }
}

// ── The pipeline ─────────────────────────────────────────────────────────────
/// Where a pipeline is.
#[derive(Debug, PartialEq, Eq)]
pub enum PipelineStage {
    /// Waiting for the microphone to stop.
    Stopping,
    /// Waiting for the samples to be encoded.
    Encoding,
    /// Waiting for the transcription; `retried` once the first attempt failed.
    Transcribing { retried: bool },
    /// Waiting for the rewrite; `fallback` is typed where it fails or is blank.
    Rephrasing { fallback: String },
    /// Waiting for the text to be typed; it is `char_count` bytes long.
    Injecting { char_count: usize },
    /// The outcome has been reported.
    Done,
}

/// A pipeline stage, with its text as characters.
pub enum PipelineStageModel {
    Stopping,
    Encoding,
    Transcribing { retried: bool },
    Rephrasing { fallback: Seq<char> },
    Injecting { char_count: nat },
    Done,
}

impl View for PipelineStage {
    type V = PipelineStageModel;

    open spec fn view(&self) -> PipelineStageModel {
        match self {
            PipelineStage::Stopping => PipelineStageModel::Stopping,
            PipelineStage::Encoding => PipelineStageModel::Encoding,
            PipelineStage::Transcribing { retried } => PipelineStageModel::Transcribing {
                retried: *retried,
            },
            PipelineStage::Rephrasing { fallback } => PipelineStageModel::Rephrasing {
                fallback: fallback@,
            },
            PipelineStage::Injecting { char_count } => PipelineStageModel::Injecting {
                char_count: *char_count as nat,
            },
            PipelineStage::Done => PipelineStageModel::Done,
        }
    }
}

/// What comes back from the work a pipeline asked for.
pub enum PipelineEvent {
    /// The microphone stopped with this many samples.
    CaptureStopped { sample_count: usize },
    /// The work of the current stage failed.
    Failed,
    /// The samples were encoded.
    Encoded,
    /// The transcription came back; `smart_keywords` says whether trigger phrases
    /// are acted on.
    Transcribed { text: String, smart_keywords: bool },
    /// The rewrite came back.
    Rephrased { text: String },
    /// The text was typed.
    Injected,
}

/// A pipeline event, with its text as characters.
pub enum PipelineEventModel {
    CaptureStopped { sample_count: nat },
    Failed,
    Encoded,
    Transcribed { text: Seq<char>, smart_keywords: bool },
    Rephrased { text: Seq<char> },
    Injected,
}

impl View for PipelineEvent {
    type V = PipelineEventModel;

    open spec fn view(&self) -> PipelineEventModel {
        match self {
            PipelineEvent::CaptureStopped { sample_count } => PipelineEventModel::CaptureStopped {
                sample_count: *sample_count as nat,
            },
            PipelineEvent::Failed => PipelineEventModel::Failed,
            PipelineEvent::Encoded => PipelineEventModel::Encoded,
            PipelineEvent::Transcribed { text, smart_keywords } => PipelineEventModel::Transcribed {
                text: text@,
                smart_keywords: *smart_keywords,
            },
            PipelineEvent::Rephrased { text } => PipelineEventModel::Rephrased { text: text@ },
            PipelineEvent::Injected => PipelineEventModel::Injected,
        }
    }
}

/// The number of bytes of `text` in UTF-8.
pub open spec fn byte_len(text: Seq<char>) -> nat {
    encode_utf8(text).len()
}

/// The step that types `text`.
pub open spec fn inject_step(text: Seq<char>) -> (PipelineStageModel, Seq<FlowActionModel>) {
    (
        PipelineStageModel::Injecting { char_count: byte_len(text) },
        seq![FlowActionModel::Inject { text }],
    )
}

/// The step that ends the pipeline with an error report.
pub open spec fn fail_step(report: ErrorReport) -> (PipelineStageModel, Seq<FlowActionModel>) {
    (
        PipelineStageModel::Done,
        seq![FlowActionModel::Emit(OverlayEvent::RecordingError(report))],
    )
}

/// The next stage of a pipeline and the actions it asks for.
pub open spec fn pipeline_step(s: PipelineStageModel, e: PipelineEventModel) -> (
    PipelineStageModel,
    Seq<FlowActionModel>,
) {
    match (s, e) {
        (PipelineStageModel::Stopping, PipelineEventModel::CaptureStopped { sample_count }) => {
            if sample_count == 0 {
                fail_step(ErrorReport::NoAudioCaptured)
            } else {
                (
                    PipelineStageModel::Encoding,
                    seq![
                        FlowActionModel::Emit(OverlayEvent::ProcessingStarted),
                        FlowActionModel::Encode,
                    ],
                )
            }
        },
        (PipelineStageModel::Stopping, PipelineEventModel::Failed) => fail_step(
            ErrorReport::StopFailed,
        ),
        (PipelineStageModel::Encoding, PipelineEventModel::Encoded) => (
            PipelineStageModel::Transcribing { retried: false },
            seq![FlowActionModel::Transcribe],
        ),
        (PipelineStageModel::Encoding, PipelineEventModel::Failed) => fail_step(
            ErrorReport::EncodeFailed,
        ),
        (
            PipelineStageModel::Transcribing { .. },
            PipelineEventModel::Transcribed { text, smart_keywords },
        ) => {
            let t = trim_white_space(text);
            if t.len() == 0 {
                fail_step(ErrorReport::NoSpeechDetected)
            } else if smart_keywords && keyword_result(t) is Some {
                let (clean, format) = keyword_result(t)->0;
                (
                    PipelineStageModel::Rephrasing { fallback: clean },
                    seq![
                        FlowActionModel::Emit(OverlayEvent::ProcessingGpt),
                        FlowActionModel::Rephrase { text: clean, action: rephrase_action(), format },
                    ],
                )
            } else {
                inject_step(t)
            }
        },
        (PipelineStageModel::Transcribing { retried }, PipelineEventModel::Failed) => {
            if retried {
                fail_step(ErrorReport::TranscribeFailed)
            } else {
                (
                    PipelineStageModel::Transcribing { retried: true },
                    seq![FlowActionModel::RetryTranscribe],
                )
            }
        },
        (PipelineStageModel::Rephrasing { fallback }, PipelineEventModel::Rephrased { text }) => {
            let r = trim_white_space(text);
            if r.len() == 0 {
                inject_step(fallback)
            } else {
                inject_step(r)
            }
        },
        (PipelineStageModel::Rephrasing { fallback }, PipelineEventModel::Failed) => inject_step(
            fallback,
        ),
        (PipelineStageModel::Injecting { char_count }, PipelineEventModel::Injected) => (
            PipelineStageModel::Done,
            seq![FlowActionModel::Emit(OverlayEvent::RecordingSuccess(char_count as usize))],
        ),
        (PipelineStageModel::Injecting { .. }, PipelineEventModel::Failed) => fail_step(
            ErrorReport::InjectionFailed,
        ),
        _ => (s, seq![]),
    }
}

/// What `str::trim` leaves of `s`.
fn trimmed(s: &str) -> (r: String)
    ensures
        r@ == trim_white_space(s@),
{
    let v = chars_of(s);
    let (a, b) = trim_white_space_range(&v, 0, v.len());
    assert(v@.subrange(0, v@.len() as int) =~= v@);
    String::from_str(s.substring_char(a, b))
}

/// The UTF-8 length of `s` in bytes.
fn utf8_byte_len(s: &String) -> (n: usize)
    ensures
        n == byte_len(s@),
{
    s.as_str().as_bytes().len()
}

impl PipelineStage {
    /// A pipeline for a capture that is being stopped.
    pub fn new() -> (r: PipelineStage)
        ensures
            r@ == PipelineStageModel::Stopping,
    {
        PipelineStage::Stopping
    }

    fn inject(&mut self, text: String) -> (actions: Vec<FlowAction>)
        ensures
            (final(self)@, actions_view(actions@)) == inject_step(text@),
    {
        let n = utf8_byte_len(&text);
        *self = PipelineStage::Injecting { char_count: n };
        let mut actions: Vec<FlowAction> = Vec::new();
        actions.push(FlowAction::Inject { text });
        assert(actions_view(actions@) =~= inject_step(text@).1);
        actions
    }

    fn fail(&mut self, report: ErrorReport) -> (actions: Vec<FlowAction>)
        ensures
            (final(self)@, actions_view(actions@)) == fail_step(report),
    {
        *self = PipelineStage::Done;
        let mut actions: Vec<FlowAction> = Vec::new();
        actions.push(FlowAction::Emit(OverlayEvent::RecordingError(report)));
        assert(actions_view(actions@) =~= fail_step(report).1);
        actions
    }

    /// Takes `event` and returns the actions it calls for, in order.
    pub fn advance(&mut self, event: PipelineEvent) -> (actions: Vec<FlowAction>)
        ensures
            (final(self)@, actions_view(actions@)) == pipeline_step(old(self)@, event@),
    {
        let ghost s0 = self@;
        let ghost e0 = event@;
        match (&*self, event) {
            (PipelineStage::Stopping, PipelineEvent::CaptureStopped { sample_count }) => {
                if sample_count == 0 {
                    self.fail(ErrorReport::NoAudioCaptured)
                } else {
                    *self = PipelineStage::Encoding;
                    let mut actions: Vec<FlowAction> = Vec::new();
                    actions.push(FlowAction::Emit(OverlayEvent::ProcessingStarted));
                    actions.push(FlowAction::Encode);
                    assert(actions_view(actions@) =~= pipeline_step(s0, e0).1);
                    actions
                }
            },
            (PipelineStage::Stopping, PipelineEvent::Failed) => self.fail(ErrorReport::StopFailed),
            (PipelineStage::Encoding, PipelineEvent::Encoded) => {
                *self = PipelineStage::Transcribing { retried: false };
                let mut actions: Vec<FlowAction> = Vec::new();
                actions.push(FlowAction::Transcribe);
                assert(actions_view(actions@) =~= pipeline_step(s0, e0).1);
                actions
            },
            (PipelineStage::Encoding, PipelineEvent::Failed) => self.fail(
                ErrorReport::EncodeFailed,
            ),
            (
                PipelineStage::Transcribing { .. },
                PipelineEvent::Transcribed { text, smart_keywords },
            ) => {
                let t = trimmed(text.as_str());
                if t.as_str().unicode_len() == 0 {
                    return self.fail(ErrorReport::NoSpeechDetected);
                }
                if smart_keywords {
                    if let Some(kw) = detect_keyword(t.as_str()) {
                        let fallback = kw.clean_text.clone();
                        *self = PipelineStage::Rephrasing { fallback };
                        let mut actions: Vec<FlowAction> = Vec::new();
                        actions.push(FlowAction::Emit(OverlayEvent::ProcessingGpt));
                        actions.push(
                            FlowAction::Rephrase {
                                text: kw.clean_text,
                                action: kw.action,
                                format: kw.format,
                            },
                        );
                        assert(actions_view(actions@) =~= pipeline_step(s0, e0).1);
                        return actions;
                    }
                }
                self.inject(t)
            },
            (PipelineStage::Transcribing { retried }, PipelineEvent::Failed) => {
                if *retried {
                    self.fail(ErrorReport::TranscribeFailed)
                } else {
                    *self = PipelineStage::Transcribing { retried: true };
                    let mut actions: Vec<FlowAction> = Vec::new();
                    actions.push(FlowAction::RetryTranscribe);
                    assert(actions_view(actions@) =~= pipeline_step(s0, e0).1);
                    actions
                }
            },
            (PipelineStage::Rephrasing { fallback }, PipelineEvent::Rephrased { text }) => {
                let fallback = fallback.clone();
                let r = trimmed(text.as_str());
                if r.as_str().unicode_len() == 0 {
                    self.inject(fallback)
                } else {
                    self.inject(r)
                }
            },
            (PipelineStage::Rephrasing { fallback }, PipelineEvent::Failed) => {
                let fallback = fallback.clone();
                self.inject(fallback)
            },
            (PipelineStage::Injecting { char_count }, PipelineEvent::Injected) => {
                let n = *char_count;
                *self = PipelineStage::Done;
                let mut actions: Vec<FlowAction> = Vec::new();
                actions.push(FlowAction::Emit(OverlayEvent::RecordingSuccess(n)));
                assert(actions_view(actions@) =~= pipeline_step(s0, e0).1);
                actions
            },
            (PipelineStage::Injecting { .. }, PipelineEvent::Failed) => self.fail(
                ErrorReport::InjectionFailed,
            ),
            _ => {
                let actions: Vec<FlowAction> = Vec::new();
                assert(actions_view(actions@) =~= pipeline_step(s0, e0).1);
                actions
            },
        }
    }
}

// ── Settings-window commands ─────────────────────────────────────────────────
/// The hotkey registered at start-up.
pub const DEFAULT_HOTKEY: &'static str = "Alt+Space";

/// Whether the settings window may start a recording: not while one runs.
pub fn check_manual_start(capturing: bool) -> (r: Result<(), String>)
    ensures
        !capturing ==> r is Ok,
        capturing ==> (r matches Err(m) && m@ == "Already recording"@),
{
    if capturing {
        Err(String::from_str("Already recording"))
    } else {
        Ok(())
    }
}

/// Whether the settings window may stop a recording: only while one runs.
pub fn check_manual_stop(capturing: bool) -> (r: Result<(), String>)
    ensures
        capturing ==> r is Ok,
        !capturing ==> (r matches Err(m) && m@ == "Not recording"@),
{
    if capturing {
        Ok(())
    } else {
        Err(String::from_str("Not recording"))
    }
}

/// Whether a recording stopped from the settings window captured anything.
pub fn check_manual_capture(sample_count: usize) -> (r: Result<(), String>)
    ensures
        sample_count > 0 ==> r is Ok,
        sample_count == 0 ==> (r matches Err(m) && m@ == "No audio data captured"@),
{
    if sample_count == 0 {
        Err(String::from_str("No audio data captured"))
    } else {
        Ok(())
    }
}

// ── Laws ─────────────────────────────────────────────────────────────────────
/// A recorder that is held knows when its hotkey went down.
pub open spec fn recorder_inv(s: RecorderState) -> bool {
    s.held ==> s.pressed_at_ms is Some
}

/// The idle recorder keeps the invariant, and every event keeps it.
pub proof fn lemma_recorder_inv(s: RecorderState, e: RecorderEvent)
    requires
        recorder_inv(s),
    ensures
        recorder_inv(recorder_idle()),
        recorder_inv(recorder_step(s, e).0),
{
}

/// A press while the hotkey is already held changes nothing and asks for nothing.
pub proof fn lemma_press_while_held_ignored(s: RecorderState, now_ms: u64)
    requires
        s.held,
    ensures
        recorder_step(s, RecorderEvent::Pressed { now_ms }) == (s, Seq::<FlowActionModel>::empty()),
{
}

/// A release always leaves the recorder idle.
pub proof fn lemma_release_ends_hold(s: RecorderState, now_ms: u64, capturing: bool)
    ensures
        recorder_step(s, RecorderEvent::Released { now_ms, capturing }).0 == recorder_idle(),
{
}

/// A release without a held hotkey asks for nothing.
pub proof fn lemma_release_when_not_held(s: RecorderState, now_ms: u64, capturing: bool)
    requires
        !s.held,
    ensures
        recorder_step(s, RecorderEvent::Released { now_ms, capturing }).1 == Seq::<
            FlowActionModel,
        >::empty(),
{
}

/// A tap shorter than `MIN_HOLD_MS` is replayed and never stops a capture, so it
/// never leads to a transcription.
pub proof fn lemma_short_tap_replayed(
    s: RecorderState,
    pressed_at_ms: u64,
    now_ms: u64,
    capturing: bool,
)
    requires
        s.held,
        s.pressed_at_ms == Some(pressed_at_ms),
        elapsed_ms(pressed_at_ms, now_ms) < MIN_HOLD_MS,
    ensures
        recorder_step(s, RecorderEvent::Released { now_ms, capturing }) == (
            recorder_idle(),
            seq![FlowActionModel::ReplayKey],
        ),
{
}

/// A hold of at least `MIN_HOLD_MS` with the microphone running stops the capture.
pub proof fn lemma_long_hold_stops_capture(s: RecorderState, pressed_at_ms: u64, now_ms: u64)
    requires
        s.held,
        s.pressed_at_ms == Some(pressed_at_ms),
        elapsed_ms(pressed_at_ms, now_ms) >= MIN_HOLD_MS,
    ensures
        recorder_step(s, RecorderEvent::Released { now_ms, capturing: true }) == (
            recorder_idle(),
            seq![FlowActionModel::StopCapture],
        ),
{
}

/// From idle: a press, the hold timer, a started microphone and a release at least
/// `MIN_HOLD_MS` later stop the capture and leave the recorder idle.
pub proof fn lemma_hold_and_release_records(t0: u64, t1: u64)
    requires
        elapsed_ms(t0, t1) >= MIN_HOLD_MS,
    ensures
        ({
            let s1 = recorder_step(recorder_idle(), RecorderEvent::Pressed { now_ms: t0 });
            let s2 = recorder_step(s1.0, RecorderEvent::HoldElapsed);
            let s3 = recorder_step(s2.0, RecorderEvent::CaptureStarted);
            let s4 = recorder_step(s3.0, RecorderEvent::Released { now_ms: t1, capturing: true });
            &&& s1.1 == seq![FlowActionModel::WaitForHold]
            &&& s2.1 == seq![
                FlowActionModel::Emit(OverlayEvent::RecordingStarted),
                FlowActionModel::StartCapture,
            ]
            &&& s3.1 == seq![FlowActionModel::StartTicker]
            &&& s4 == (recorder_idle(), seq![FlowActionModel::StopCapture])
        }),
{
}

/// What a release does to a held hotkey pressed at `pressed_at_ms`: the recorder
/// goes idle, and a press shorter than 200 ms is replayed as a key tap, while a
/// longer one stops the microphone where it runs and asks for nothing otherwise.
pub proof fn lemma_release_by_hold_time(
    s: RecorderState,
    pressed_at_ms: u64,
    now_ms: u64,
    capturing: bool,
)
    requires
        s.held,
        s.pressed_at_ms == Some(pressed_at_ms),
    ensures
        ({
            let held_for: int = if now_ms >= pressed_at_ms {
                now_ms - pressed_at_ms
            } else {
                0
            };
            recorder_step(s, RecorderEvent::Released { now_ms, capturing }) == (
                RecorderState { held: false, pressed_at_ms: None },
                if held_for < 200 {
                    seq![FlowActionModel::ReplayKey]
                } else if capturing {
                    seq![FlowActionModel::StopCapture]
                } else {
                    Seq::<FlowActionModel>::empty()
                },
            )
        }),
{
}

/// The timings the flow runs on: a press is a hold after 200 ms, a recording is
/// cut off after 60 s, and a failed transcription is retried after 3 s.
pub proof fn lemma_flow_timings()
    ensures
        MIN_HOLD_MS == 200,
        MAX_RECORD_SECS == 60,
        TRANSCRIBE_RETRY_DELAY_MS == 3000,
{
}

/// A recording that reaches `MAX_RECORD_SECS` is released by its ticker, and that
/// release stops the capture.
pub proof fn lemma_recording_limit(s: RecorderState, started_ms: u64, now_ms: u64)
    requires
        s.held,
        s.pressed_at_ms == Some(started_ms),
        elapsed_ms(started_ms, now_ms) / 1000 >= MAX_RECORD_SECS,
    ensures
        recorder_step(s, RecorderEvent::Tick { started_ms, now_ms }).1.contains(
            FlowActionModel::ReleaseNow,
        ),
        recorder_step(s, RecorderEvent::Tick { started_ms, now_ms }).1.contains(
            FlowActionModel::StopTicker,
        ),
        recorder_step(
            recorder_step(s, RecorderEvent::Tick { started_ms, now_ms }).0,
            RecorderEvent::Released { now_ms, capturing: true },
        ) == (recorder_idle(), seq![FlowActionModel::StopCapture]),
{
    let acts = recorder_step(s, RecorderEvent::Tick { started_ms, now_ms }).1;
    assert(acts[1] == FlowActionModel::ReleaseNow);
    assert(acts[2] == FlowActionModel::StopTicker);
}

/// What a tick does to a held recording: it reports the whole seconds since the
/// press, and only once 60 of them have passed does it also end the recording
/// (release the key and stop the ticker). Before 60 seconds nothing cuts it short.
pub proof fn lemma_tick_on_held_recording(s: RecorderState, started_ms: u64, now_ms: u64)
    requires
        s.held,
    ensures
        ({
            let secs: u64 = if now_ms >= started_ms {
                ((now_ms - started_ms) / 1000) as u64
            } else {
                0
            };
            recorder_step(s, RecorderEvent::Tick { started_ms, now_ms }) == if secs < 60 {
                (s, seq![FlowActionModel::Emit(OverlayEvent::RecordingTick(secs))])
            } else {
                (
                    s,
                    seq![
                        FlowActionModel::Emit(OverlayEvent::RecordingTick(secs)),
                        FlowActionModel::ReleaseNow,
                        FlowActionModel::StopTicker,
                    ],
                )
            }
        }),
        now_ms < started_ms + 60_000 ==> !recorder_step(
            s,
            RecorderEvent::Tick { started_ms, now_ms },
        ).1.contains(FlowActionModel::ReleaseNow),
{
    let acts = recorder_step(s, RecorderEvent::Tick { started_ms, now_ms }).1;
    if now_ms < started_ms + 60_000 {
        assert(acts.len() == 1);
        if acts.contains(FlowActionModel::ReleaseNow) {
            let k = choose|k: int| 0 <= k < acts.len() && acts[k] == FlowActionModel::ReleaseNow;
            assert(k == 0);
        }
    }
}

/// The recorder after `events`, from `s`, with all the actions it asked for, in order.
pub open spec fn recorder_run(s: RecorderState, events: Seq<RecorderEvent>) -> (
    RecorderState,
    Seq<FlowActionModel>,
)
    decreases events.len(),
{
    if events.len() == 0 {
        (s, seq![])
    } else {
        let before = recorder_run(s, events.drop_last());
        let after = recorder_step(before.0, events.last());
        (after.0, before.1 + after.1)
    }
}

/// How many of `actions` stop the capture.
pub open spec fn stop_count(actions: Seq<FlowActionModel>) -> nat
    decreases actions.len(),
{
    if actions.len() == 0 {
        0
    } else {
        stop_count(actions.drop_last()) + if actions.last() == FlowActionModel::StopCapture {
            1nat
        } else {
            0nat
        }
    }
}

/// How many of `events` are presses.
pub open spec fn press_count(events: Seq<RecorderEvent>) -> nat
    decreases events.len(),
{
    if events.len() == 0 {
        0
    } else {
        press_count(events.drop_last()) + if events.last() is Pressed {
            1nat
        } else {
            0nat
        }
    }
}

proof fn lemma_stop_count_concat(a: Seq<FlowActionModel>, b: Seq<FlowActionModel>)
    ensures
        stop_count(a + b) == stop_count(a) + stop_count(b),
    decreases b.len(),
{
    if b.len() > 0 {
        lemma_stop_count_concat(a, b.drop_last());
        assert((a + b).drop_last() =~= a + b.drop_last());
    } else {
        assert(a + b =~= a);
    }
}

proof fn lemma_step_stops(s: RecorderState, e: RecorderEvent)
    ensures
        stop_count(recorder_step(s, e).1) <= if s.held { 1nat } else { 0nat },
        stop_count(recorder_step(s, e).1) == 1 ==> !recorder_step(s, e).0.held,
        recorder_step(s, e).0.held && !s.held ==> e is Pressed,
{
    reveal_with_fuel(stop_count, 4);
}

/// Each press stops the capture at most once: over any run of events from idle,
/// the captures stopped, plus one for a hold still in progress, never outnumber
/// the presses. So a release that follows the automatic stop at the time limit
/// does not stop (and transcribe) a second time.
pub proof fn lemma_one_stop_per_press(events: Seq<RecorderEvent>)
    ensures
        stop_count(recorder_run(recorder_idle(), events).1) + (if recorder_run(
            recorder_idle(),
            events,
        ).0.held {
            1nat
        } else {
            0nat
        }) <= press_count(events),
    decreases events.len(),
{
    if events.len() > 0 {
        let before = recorder_run(recorder_idle(), events.drop_last());
        let after = recorder_step(before.0, events.last());
        lemma_one_stop_per_press(events.drop_last());
        lemma_stop_count_concat(before.1, after.1);
        lemma_step_stops(before.0, events.last());
    }
}

/// A ticker of a recording that is no longer held only stops itself.
pub proof fn lemma_stale_ticker_stops(s: RecorderState, started_ms: u64, now_ms: u64)
    requires
        !s.held,
    ensures
        recorder_step(s, RecorderEvent::Tick { started_ms, now_ms }) == (
            s,
            seq![FlowActionModel::StopTicker],
        ),
{
}

/// Text waiting to be typed as a fallback is never empty.
pub open spec fn pipeline_inv(s: PipelineStageModel) -> bool {
    match s {
        PipelineStageModel::Rephrasing { fallback } => fallback.len() > 0,
        _ => true,
    }
}

/// The clean text of a trigger phrase is never empty.
pub proof fn lemma_keyword_result_nonempty(text: Seq<char>)
    ensures
        keyword_result(text) matches Some((c, _)) ==> c.len() > 0,
{
}

/// Every step keeps the pipeline invariant, and a pipeline never types empty text.
pub proof fn lemma_pipeline_never_injects_empty(s: PipelineStageModel, e: PipelineEventModel)
    requires
        pipeline_inv(s),
    ensures
        pipeline_inv(PipelineStageModel::Stopping),
        pipeline_inv(pipeline_step(s, e).0),
        forall|i: int|
            0 <= i < pipeline_step(s, e).1.len() ==> (#[trigger] pipeline_step(s, e).1[i] matches FlowActionModel::Inject { text }
                ==> text.len() > 0),
{
    match (s, e) {
        (
            PipelineStageModel::Transcribing { .. },
            PipelineEventModel::Transcribed { text, smart_keywords },
        ) => {
            lemma_keyword_result_nonempty(trim_white_space(text));
        },
        _ => {},
    }
}

/// With smart keywords on, a transcription that ends with a format phrase ("...
/// rephrase as email") is sent for a rewrite of its clean text with that format,
/// and the rewrite is asked for with the prompt for that format, whose rules are
/// the format's own.
pub proof fn lemma_format_phrase_reaches_prompt(text: Seq<char>, retried: bool)
    requires
        trim_white_space(text).len() > 0,
        keyword_result(trim_white_space(text)) matches Some((_, Some(_))),
    ensures
        ({
            let (clean, format) = keyword_result(trim_white_space(text))->0;
            let f = format->0;
            &&& pipeline_step(
                PipelineStageModel::Transcribing { retried },
                PipelineEventModel::Transcribed { text, smart_keywords: true },
            ) == (
                PipelineStageModel::Rephrasing { fallback: clean },
                seq![
                    FlowActionModel::Emit(OverlayEvent::ProcessingGpt),
                    FlowActionModel::Rephrase { text: clean, action: rephrase_action(), format: Some(f) },
                ],
            )
            &&& system_prompt(rephrase_action(), Some(f)) == format_prompt_text(
                f,
                uppercase(f),
                guidelines_text(format_style(f)),
            )
            &&& format_style(f) != FormatStyle::General
        }),
{
    let l = lowercase(matching_text(trim_white_space(text)));
    lemma_format_from_format_phrase(l);
    let (_, fo) = keyword_result(trim_white_space(text))->0;
    let f = fo->0;
    let j = choose|j: int| 0 <= j < 18 && f == #[trigger] known_format(j);
    lemma_known_formats_have_rules(j);
}

/// The success report counts the bytes of exactly the text that was typed.
pub proof fn lemma_success_counts_injected_text(text: Seq<char>)
    ensures
        pipeline_step(inject_step(text).0, PipelineEventModel::Injected) == (
            PipelineStageModel::Done,
            seq![FlowActionModel::Emit(OverlayEvent::RecordingSuccess(byte_len(text) as usize))],
        ),
{
}

/// With smart keywords on, a transcription in which no trigger phrase is found
/// is typed as it came, trimmed, and reported by its UTF-8 length; it is not sent
/// for a rewrite.
pub proof fn lemma_no_rewrite_without_trigger(text: Seq<char>, retried: bool)
    requires
        trim_white_space(text).len() > 0,
        keyword_result(trim_white_space(text)) is None,
    ensures
        pipeline_step(
            PipelineStageModel::Transcribing { retried },
            PipelineEventModel::Transcribed { text, smart_keywords: true },
        ) == (
            PipelineStageModel::Injecting { char_count: encode_utf8(trim_white_space(text)).len() },
            seq![FlowActionModel::Inject { text: trim_white_space(text) }],
        ),
{
}

/// A rewrite is only ever asked for by a transcription, with smart keywords on,
/// in which a trigger phrase was found: the text sent is the clean text of that
/// phrase, the action is "rephrase" and the format is the one the phrase named.
pub proof fn lemma_rewrite_only_for_trigger(s: PipelineStageModel, e: PipelineEventModel, i: int)
    requires
        0 <= i < pipeline_step(s, e).1.len(),
    ensures
        pipeline_step(s, e).1[i] matches FlowActionModel::Rephrase { text, action, format } ==> {
            &&& s is Transcribing
            &&& e matches PipelineEventModel::Transcribed { text: spoken, smart_keywords }
                && smart_keywords && keyword_result(trim_white_space(spoken)) == Some((text, format))
            &&& action == "rephrase"@
        },
{
}

/// With smart keywords off, a transcription is typed as it came, trimmed, or
/// reported as blank; it is never sent for a rewrite.
pub proof fn lemma_no_rewrite_without_smart_keywords(text: Seq<char>, retried: bool)
    ensures
        pipeline_step(
            PipelineStageModel::Transcribing { retried },
            PipelineEventModel::Transcribed { text, smart_keywords: false },
        ) == (if trim_white_space(text).len() == 0 {
            fail_step(ErrorReport::NoSpeechDetected)
        } else {
            inject_step(trim_white_space(text))
        }),
{
}

/// A failed or blank rewrite types the clean text instead.
pub proof fn lemma_rewrite_falls_back(fallback: Seq<char>, text: Seq<char>)
    ensures
        pipeline_step(PipelineStageModel::Rephrasing { fallback }, PipelineEventModel::Failed)
            == inject_step(fallback),
        trim_white_space(text).len() == 0 ==> pipeline_step(
            PipelineStageModel::Rephrasing { fallback },
            PipelineEventModel::Rephrased { text },
        ) == inject_step(fallback),
{
}

/// A transcription that fails is tried once more; a second failure is reported.
pub proof fn lemma_transcription_retried_once()
    ensures
        pipeline_step(
            PipelineStageModel::Transcribing { retried: false },
            PipelineEventModel::Failed,
        ) == (
            PipelineStageModel::Transcribing { retried: true },
            seq![FlowActionModel::RetryTranscribe],
        ),
        pipeline_step(
            PipelineStageModel::Transcribing { retried: true },
            PipelineEventModel::Failed,
        ) == fail_step(ErrorReport::TranscribeFailed),
{
}

/// A failure of stopping, encoding, the second transcription attempt or the typing
/// ends the pipeline with one error report.
pub proof fn lemma_failure_reported(s: PipelineStageModel)
    requires
        s is Stopping || s is Encoding || s == (PipelineStageModel::Transcribing { retried: true })
            || s is Injecting,
    ensures
        pipeline_step(s, PipelineEventModel::Failed).0 == PipelineStageModel::Done,
        pipeline_step(s, PipelineEventModel::Failed).1.len() == 1,
        pipeline_step(s, PipelineEventModel::Failed).1[0] matches FlowActionModel::Emit(
            OverlayEvent::RecordingError(_),
        ),
{
}

/// The pipeline after `events`, from `s`, with all the actions it asked for, in order.
pub open spec fn pipeline_run(s: PipelineStageModel, events: Seq<PipelineEventModel>) -> (
    PipelineStageModel,
    Seq<FlowActionModel>,
)
    decreases events.len(),
{
    if events.len() == 0 {
        (s, seq![])
    } else {
        let before = pipeline_run(s, events.drop_last());
        let after = pipeline_step(before.0, events.last());
        (after.0, before.1 + after.1)
    }
}

/// Whether an action reports the outcome of a recording.
pub open spec fn is_outcome(a: FlowActionModel) -> bool {
    a matches FlowActionModel::Emit(e) && (e is RecordingSuccess || e is RecordingError)
}

/// How many of `actions` report an outcome.
pub open spec fn outcome_count(actions: Seq<FlowActionModel>) -> nat
    decreases actions.len(),
{
    if actions.len() == 0 {
        0
    } else {
        outcome_count(actions.drop_last()) + if is_outcome(actions.last()) {
            1nat
        } else {
            0nat
        }
    }
}

proof fn lemma_outcome_count_concat(a: Seq<FlowActionModel>, b: Seq<FlowActionModel>)
    ensures
        outcome_count(a + b) == outcome_count(a) + outcome_count(b),
    decreases b.len(),
{
    if b.len() > 0 {
        lemma_outcome_count_concat(a, b.drop_last());
        assert((a + b).drop_last() =~= a + b.drop_last());
    } else {
        assert(a + b =~= a);
    }
}

proof fn lemma_step_outcomes(s: PipelineStageModel, e: PipelineEventModel)
    ensures
        outcome_count(pipeline_step(s, e).1) == if pipeline_step(s, e).0 is Done && !(s is Done) {
            1nat
        } else {
            0nat
        },
        s is Done ==> pipeline_step(s, e).0 is Done,
{
    reveal_with_fuel(outcome_count, 3);
}

/// A pipeline reports at most one outcome, success or error, and it has reported
/// one exactly when it is done: whatever events come, from the start on.
pub proof fn lemma_one_outcome(events: Seq<PipelineEventModel>)
    ensures
        outcome_count(pipeline_run(PipelineStageModel::Stopping, events).1) == if pipeline_run(
            PipelineStageModel::Stopping,
            events,
        ).0 is Done {
            1nat
        } else {
            0nat
        },
    decreases events.len(),
{
    if events.len() > 0 {
        let before = pipeline_run(PipelineStageModel::Stopping, events.drop_last());
        let after = pipeline_step(before.0, events.last());
        lemma_one_outcome(events.drop_last());
        lemma_outcome_count_concat(before.1, after.1);
        lemma_step_outcomes(before.0, events.last());
    }
}

/// Once the outcome is reported, nothing more happens.
pub proof fn lemma_done_is_final(e: PipelineEventModel)
    ensures
        pipeline_step(PipelineStageModel::Done, e) == (
            PipelineStageModel::Done,
            Seq::<FlowActionModel>::empty(),
        ),
{
}

} // verus!
