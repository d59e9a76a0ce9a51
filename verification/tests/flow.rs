use wisper::flow::{
    error_message, ErrorReport, FlowAction, OverlayEvent, PipelineEvent, PipelineStage,
    RecorderEvent, RecorderState, MAX_RECORD_SECS, MIN_HOLD_MS,
};


#[test]
fn hold_then_release_records() {
    let mut r = RecorderState::new();
    assert_eq!(r.handle(RecorderEvent::Pressed { now_ms: 1000 }), vec![FlowAction::WaitForHold]);
    assert!(r.held);
    assert_eq!(r.pressed_at_ms, Some(1000));
    assert_eq!(
        r.handle(RecorderEvent::HoldElapsed),
        vec![FlowAction::Emit(OverlayEvent::RecordingStarted), FlowAction::StartCapture]
    );
    assert_eq!(r.handle(RecorderEvent::CaptureStarted), vec![FlowAction::StartTicker]);
    assert_eq!(r.handle(RecorderEvent::Released { now_ms: 4000, capturing: true }), vec![FlowAction::StopCapture]);
    assert_eq!(r, RecorderState::new());
}

#[test]
fn short_tap_is_replayed() {
    let mut r = RecorderState::new();
    r.handle(RecorderEvent::Pressed { now_ms: 50 });
    assert_eq!(r.handle(RecorderEvent::Released { now_ms: 50 + MIN_HOLD_MS - 1, capturing: false }), vec![FlowAction::ReplayKey]);
    assert!(!r.held);
    // the hold timer then finds the key released
    assert_eq!(r.handle(RecorderEvent::HoldElapsed), vec![]);
}

#[test]
fn press_while_held_is_ignored() {
    let mut r = RecorderState::new();
    r.handle(RecorderEvent::Pressed { now_ms: 10 });
    let before = r;
    assert_eq!(r.handle(RecorderEvent::Pressed { now_ms: 20 }), vec![]);
    assert_eq!(r, before);
}

#[test]
fn release_without_press_does_nothing() {
    let mut r = RecorderState::new();
    assert_eq!(r.handle(RecorderEvent::Released { now_ms: 5, capturing: true }), vec![]);
    assert_eq!(r, RecorderState::new());
}

#[test]
fn capture_failure_ends_hold() {
    let mut r = RecorderState::new();
    r.handle(RecorderEvent::Pressed { now_ms: 0 });
    r.handle(RecorderEvent::HoldElapsed);
    assert_eq!(
        r.handle(RecorderEvent::CaptureFailed),
        vec![FlowAction::Emit(OverlayEvent::RecordingError(ErrorReport::CaptureFailed))]
    );
    assert!(!r.held);
    // the key release that follows finds nothing to do
    assert_eq!(r.handle(RecorderEvent::Released { now_ms: 900, capturing: false }), vec![]);
}

#[test]
fn ticks_and_limit() {
    let mut r = RecorderState::new();
    r.handle(RecorderEvent::Pressed { now_ms: 1_000 });
    r.handle(RecorderEvent::HoldElapsed);
    r.handle(RecorderEvent::CaptureStarted);
    assert_eq!(
        r.handle(RecorderEvent::Tick { started_ms: 1_000, now_ms: 3_500 }),
        vec![FlowAction::Emit(OverlayEvent::RecordingTick(2))]
    );
    let limit = 1_000 + MAX_RECORD_SECS * 1000;
    assert_eq!(
        r.handle(RecorderEvent::Tick { started_ms: 1_000, now_ms: limit }),
        vec![FlowAction::Emit(OverlayEvent::RecordingTick(60)), FlowAction::ReleaseNow, FlowAction::StopTicker]
    );
    assert_eq!(r.handle(RecorderEvent::Released { now_ms: limit, capturing: true }), vec![FlowAction::StopCapture]);
    assert_eq!(r.handle(RecorderEvent::Tick { started_ms: 1_000, now_ms: limit + 1000 }), vec![FlowAction::StopTicker]);
    // the key release after the automatic stop is ignored
    assert_eq!(r.handle(RecorderEvent::Released { now_ms: limit + 2000, capturing: false }), vec![]);
}

fn inject(t: &str) -> FlowAction {
    FlowAction::Inject { text: t.to_string() }
}

#[test]
fn pipeline_plain_transcription() {
    let mut p = PipelineStage::new();
    assert_eq!(
        p.advance(PipelineEvent::CaptureStopped { sample_count: 16000 }),
        vec![FlowAction::Emit(OverlayEvent::ProcessingStarted), FlowAction::Encode]
    );
    assert_eq!(p.advance(PipelineEvent::Encoded), vec![FlowAction::Transcribe]);
    assert_eq!(
        p.advance(PipelineEvent::Transcribed { text: "  Héllo there. \n".to_string(), smart_keywords: false }),
        vec![inject("Héllo there.")]
    );
    assert_eq!(p, PipelineStage::Injecting { char_count: 13 });
    assert_eq!(p.advance(PipelineEvent::Injected), vec![FlowAction::Emit(OverlayEvent::RecordingSuccess(13))]);
    assert_eq!(p, PipelineStage::Done);
    assert_eq!(p.advance(PipelineEvent::Injected), vec![]);
}

#[test]
fn pipeline_keyword_is_ignored_when_smart_keywords_are_off() {
    let mut p = PipelineStage::Transcribing { retried: false };
    assert_eq!(
        p.advance(PipelineEvent::Transcribed { text: "Hello world, rephrase it".to_string(), smart_keywords: false }),
        vec![inject("Hello world, rephrase it")]
    );
}

#[test]
fn pipeline_rewrite() {
    let mut p = PipelineStage::Transcribing { retried: false };
    assert_eq!(
        p.advance(PipelineEvent::Transcribed { text: "Hello world, rephrase it".to_string(), smart_keywords: true }),
        vec![
            FlowAction::Emit(OverlayEvent::ProcessingGpt),
            FlowAction::Rephrase {
                text: "Hello world".to_string(),
                action: "rephrase".to_string(),
                format: None
            }
        ]
    );
    assert_eq!(
        p.advance(PipelineEvent::Rephrased { text: "\nHello, world!\n".to_string() }),
        vec![inject("Hello, world!")]
    );
}

#[test]
fn pipeline_rewrite_falls_back() {
    let mut p = PipelineStage::Rephrasing { fallback: "Hello world".to_string() };
    assert_eq!(p.advance(PipelineEvent::Rephrased { text: "   ".to_string() }), vec![inject("Hello world")]);
    let mut p = PipelineStage::Rephrasing { fallback: "Hello world".to_string() };
    assert_eq!(p.advance(PipelineEvent::Failed), vec![inject("Hello world")]);
    assert_eq!(p, PipelineStage::Injecting { char_count: 11 });
}

#[test]
fn pipeline_errors() {
    let err = |r| vec![FlowAction::Emit(OverlayEvent::RecordingError(r))];
    let mut p = PipelineStage::new();
    assert_eq!(p.advance(PipelineEvent::CaptureStopped { sample_count: 0 }), err(ErrorReport::NoAudioCaptured));
    let mut p = PipelineStage::new();
    assert_eq!(p.advance(PipelineEvent::Failed), err(ErrorReport::StopFailed));
    let mut p = PipelineStage::Encoding;
    assert_eq!(p.advance(PipelineEvent::Failed), err(ErrorReport::EncodeFailed));
    let mut p = PipelineStage::Transcribing { retried: false };
    assert_eq!(p.advance(PipelineEvent::Failed), vec![FlowAction::RetryTranscribe]);
    assert_eq!(p, PipelineStage::Transcribing { retried: true });
    assert_eq!(p.advance(PipelineEvent::Failed), err(ErrorReport::TranscribeFailed));
    let mut p = PipelineStage::Transcribing { retried: true };
    assert_eq!(
        p.advance(PipelineEvent::Transcribed { text: " \t".to_string(), smart_keywords: true }),
        err(ErrorReport::NoSpeechDetected)
    );
    let mut p = PipelineStage::Injecting { char_count: 3 };
    assert_eq!(p.advance(PipelineEvent::Failed), err(ErrorReport::InjectionFailed));
    assert_eq!(p, PipelineStage::Done);
}

#[test]
fn pipeline_ignores_events_out_of_order() {
    let mut p = PipelineStage::Encoding;
    assert_eq!(p.advance(PipelineEvent::Injected), vec![]);
    assert_eq!(p, PipelineStage::Encoding);
}

#[test]
fn release_after_hold_without_capture_does_nothing() {
    let mut r = RecorderState::new();
    r.handle(RecorderEvent::Pressed { now_ms: 0 });
    assert_eq!(r.handle(RecorderEvent::Released { now_ms: 300, capturing: false }), vec![]);
    assert_eq!(r, RecorderState::new());
}

#[test]
fn manual_commands() {
    assert!(wisper::flow::check_manual_start(false).is_ok());
    assert_eq!(wisper::flow::check_manual_start(true).err().unwrap(), "Already recording");
    assert!(wisper::flow::check_manual_stop(true).is_ok());
    assert_eq!(wisper::flow::check_manual_stop(false).err().unwrap(), "Not recording");
    assert!(wisper::flow::check_manual_capture(3).is_ok());
    assert_eq!(wisper::flow::check_manual_capture(0).err().unwrap(), "No audio data captured");
    assert_eq!(wisper::flow::DEFAULT_HOTKEY, "Alt+Space");
}

#[test]
fn error_messages_and_event_names() {
    assert_eq!(error_message(ErrorReport::NoAudioCaptured, "x"), "No audio captured");
    assert_eq!(error_message(ErrorReport::NoSpeechDetected, "x"), "No speech detected");
    assert_eq!(error_message(ErrorReport::InjectionFailed, "boom"), "Injection failed: boom");
    assert_eq!(error_message(ErrorReport::TranscribeFailed, "Request failed: x"), "Request failed: x");
    assert_eq!(OverlayEvent::RecordingStarted.name(), "recording-started");
    assert_eq!(OverlayEvent::RecordingTick(1).name(), "recording-tick");
    assert_eq!(OverlayEvent::ProcessingStarted.name(), "processing-started");
    assert_eq!(OverlayEvent::ProcessingGpt.name(), "processing-gpt");
    assert_eq!(OverlayEvent::RecordingSuccess(1).name(), "recording-success");
    assert_eq!(OverlayEvent::RecordingError(ErrorReport::StopFailed).name(), "recording-error");
}

#[test]
fn pipeline_rewrite_with_format() {
    let mut p = PipelineStage::Transcribing { retried: true };
    assert_eq!(
        p.advance(PipelineEvent::Transcribed {
            text: " Hi Ryan, see you tomorrow at ten. Rephrase as email ".to_string(),
            smart_keywords: true
        }),
        vec![
            FlowAction::Emit(OverlayEvent::ProcessingGpt),
            FlowAction::Rephrase {
                text: "Hi Ryan, see you tomorrow at ten.".to_string(),
                action: "rephrase".to_string(),
                format: Some("email".to_string())
            }
        ]
    );
    assert_eq!(p, PipelineStage::Rephrasing { fallback: "Hi Ryan, see you tomorrow at ten.".to_string() });
    assert_eq!(
        p.advance(PipelineEvent::Rephrased { text: "Hi Ryan,\n\nSee you tomorrow at ten.\n\nBest regards,\nMe".to_string() }),
        vec![inject("Hi Ryan,\n\nSee you tomorrow at ten.\n\nBest regards,\nMe")]
    );
}
