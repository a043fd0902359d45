use app_core::analysis_queue::{FailureKind, QueuedStatus};
use app_core::analyzer::{mark_force_transcribe, AnalyzerState};
use app_core::pipeline::{
    analysis_attempt_decision, audio_prep_failure, drops_server, finalize_song, handle_server_event,
    key_pass_decision, language_hint, lyrics_source, server_startup_failure, skip_lrclib,
    stage_ms, AttemptDecision, AttemptResult, EventStep, KeyPassDecision, LyricsSource,
    MonitorResult, RunMonitor, ServerEvent, song_step, SongEvent, SongNext, SongRun, SongStage,
};

fn s(v: &str) -> String {
    v.to_string()
}

fn failed_with(status: &QueuedStatus) -> (FailureKind, String) {
    match status {
        QueuedStatus::Failed { kind, message, acknowledged } => {
            assert!(!acknowledged);
            (*kind, message.clone())
        }
        other => panic!("not a failure: {other:?}"),
    }
}

#[test]
fn server_events_are_handled() {
    let mut on = RunMonitor::new(true);
    let mut off = RunMonitor::new(false);
    assert!(matches!(
        handle_server_event(&mut on, ServerEvent::Progress { pct: 42, msg: s("x") }),
        EventStep::Progress(42)
    ));
    assert!(matches!(
        handle_server_event(&mut off, ServerEvent::Progress { pct: 42, msg: s("x") }),
        EventStep::Continue
    ));
    assert!(matches!(
        handle_server_event(&mut on, ServerEvent::Starting { stage: s("separation") }),
        EventStep::StartSample
    ));
    assert!(matches!(
        handle_server_event(&mut on, ServerEvent::Starting { stage: s("align") }),
        EventStep::Continue
    ));
    assert!(matches!(
        handle_server_event(&mut on, ServerEvent::Timing { stage: s("separation"), ms: 120_000 }),
        EventStep::Timing { ends_sample: true, take_sample: true }
    ));
    assert!(matches!(
        handle_server_event(&mut on, ServerEvent::Timing { stage: s("separation"), ms: 119_999 }),
        EventStep::Timing { ends_sample: true, take_sample: false }
    ));
    assert!(matches!(
        handle_server_event(&mut on, ServerEvent::Timing { stage: s("align"), ms: 500_000 }),
        EventStep::Timing { ends_sample: false, take_sample: false }
    ));
    assert!(matches!(
        handle_server_event(&mut on, ServerEvent::Error { kind: Some(s("oom")), msg: s("CUDA") }),
        EventStep::Finished(MonitorResult::Oom)
    ));
    assert!(matches!(
        handle_server_event(&mut on, ServerEvent::Error { kind: None, msg: s("") }),
        EventStep::Finished(MonitorResult::Error(ref m)) if m == "Unknown error"
    ));
    assert!(matches!(
        handle_server_event(&mut on, ServerEvent::Error { kind: Some(s("io")), msg: s("disk") }),
        EventStep::Finished(MonitorResult::Error(ref m)) if m == "disk"
    ));
    assert!(matches!(handle_server_event(&mut on, ServerEvent::Unknown), EventStep::Continue));
}

#[test]
fn a_finished_run_hands_back_its_timings_in_order() {
    let mut m = RunMonitor::new(true);
    handle_server_event(&mut m, ServerEvent::Timing { stage: s("key_detect"), ms: 800 });
    handle_server_event(&mut m, ServerEvent::Progress { pct: 10, msg: s("") });
    handle_server_event(&mut m, ServerEvent::Timing { stage: s("separation"), ms: 90_000 });
    handle_server_event(&mut m, ServerEvent::Unknown);
    handle_server_event(&mut m, ServerEvent::Timing { stage: s("align"), ms: 4_000 });
    match handle_server_event(&mut m, ServerEvent::Done) {
        EventStep::Finished(MonitorResult::Done(ts)) => assert_eq!(
            ts,
            vec![(s("key_detect"), 800), (s("separation"), 90_000), (s("align"), 4_000)]
        ),
        _ => panic!("not done"),
    }
    assert!(m.timings.is_empty());
    assert!(matches!(
        handle_server_event(&mut RunMonitor::new(false), ServerEvent::Done),
        EventStep::Finished(MonitorResult::Done(ref ts)) if ts.is_empty()
    ));
}

#[test]
fn stage_ms_finds_the_first_recorded_stage() {
    let t = vec![(s("separation"), 10), (s("align"), 20), (s("separation"), 30)];
    assert_eq!(stage_ms(&t, "separation"), Some(10));
    assert_eq!(stage_ms(&t, "align"), Some(20));
    assert_eq!(stage_ms(&t, "asr"), None);
}

#[test]
fn out_of_memory_and_crashes_are_retried_once() {
    assert!(matches!(analysis_attempt_decision(AttemptResult::Done, false), AttemptDecision::Finalize));
    assert!(matches!(analysis_attempt_decision(AttemptResult::Oom, false), AttemptDecision::Retry));
    assert!(matches!(analysis_attempt_decision(AttemptResult::Crashed(s("eof")), false), AttemptDecision::Retry));
    match analysis_attempt_decision(AttemptResult::Oom, true) {
        AttemptDecision::Fail(st) => assert_eq!(failed_with(&st), (FailureKind::GpuOom, s("CUDA out of memory"))),
        _ => panic!("expected failure"),
    }
    match analysis_attempt_decision(AttemptResult::Crashed(s("eof")), true) {
        AttemptDecision::Fail(st) => assert_eq!(failed_with(&st), (FailureKind::ServerCrash, s("Server crashed: eof"))),
        _ => panic!("expected failure"),
    }
    match analysis_attempt_decision(AttemptResult::Error(s("bad file")), false) {
        AttemptDecision::Fail(st) => assert_eq!(failed_with(&st), (FailureKind::Worker, s("bad file"))),
        _ => panic!("worker errors are never retried"),
    }
}

#[test]
fn startup_and_audio_failures() {
    assert_eq!(failed_with(&server_startup_failure(s("no python"))), (FailureKind::ServerStartup, s("no python")));
    assert_eq!(
        failed_with(&audio_prep_failure("decode")),
        (FailureKind::AudioPrep, s("audio prep failed: decode"))
    );
}

#[test]
fn key_pass_decisions() {
    assert!(matches!(key_pass_decision(AttemptResult::Done, false), KeyPassDecision::Done));
    assert!(matches!(key_pass_decision(AttemptResult::Oom, false), KeyPassDecision::Retry));
    assert!(matches!(key_pass_decision(AttemptResult::Oom, true), KeyPassDecision::Fail(ref m) if m == "key detection failed"));
    assert!(matches!(key_pass_decision(AttemptResult::Error(s("x")), false), KeyPassDecision::Fail(ref m) if m == "x"));
}

#[test]
fn finalize_needs_the_transcript() {
    assert!(finalize_song(true).is_none());
    let st = finalize_song(false).unwrap();
    assert_eq!(failed_with(&st), (FailureKind::MissingOutput, s("Transcript file not found after analysis")));
}

#[test]
fn language_hint_rules() {
    assert_eq!(language_hint(Some(s("fr")), false, Some(s("en"))), Some(s("fr")));
    assert_eq!(language_hint(None, true, Some(s("en"))), Some(s("en")));
    assert_eq!(language_hint(None, false, Some(s("en"))), None);
    assert_eq!(language_hint(Some(s(" UND ")), true, Some(s("en"))), None);
    assert_eq!(language_hint(Some(s("Unknown")), true, None), None);
    assert_eq!(language_hint(Some(s("   ")), true, None), None);
    assert_eq!(language_hint(Some(s(" De ")), true, None), Some(s(" De ")));
}

#[test]
fn lyrics_lookup_is_skipped_for_stems_only_and_forced_transcription() {
    let mut st = AnalyzerState::new();
    assert!(skip_lrclib(&mut st, true, "a"));
    assert!(!skip_lrclib(&mut st, false, "a"));
    mark_force_transcribe(&mut st, "a");
    assert!(skip_lrclib(&mut st, false, "a"));
    assert!(!skip_lrclib(&mut st, false, "a"));
    assert_eq!(lyrics_source(true, true), LyricsSource::Skip);
    assert_eq!(lyrics_source(false, true), LyricsSource::LocalThenLrclib);
    assert_eq!(lyrics_source(false, false), LyricsSource::LrclibOnly);
}

#[test]
fn the_server_is_dropped_after_oom_or_crash_only() {
    assert!(drops_server(&AttemptResult::Oom));
    assert!(drops_server(&AttemptResult::Crashed(s("eof"))));
    assert!(!drops_server(&AttemptResult::Done));
    assert!(!drops_server(&AttemptResult::Error(s("bad"))));
}

#[test]
fn looking_at_the_transcription_mark_takes_it() {
    let mut st = AnalyzerState::new();
    mark_force_transcribe(&mut st, "h");
    assert!(skip_lrclib(&mut st, false, "h"));
    assert!(st.force_transcribe.is_empty());
    assert!(!skip_lrclib(&mut st, false, "h"));
    mark_force_transcribe(&mut st, "h");
    assert!(skip_lrclib(&mut st, true, "h"));
    assert_eq!(st.force_transcribe, vec!["h".to_string()]);
}

#[test]
fn a_song_run_goes_prepare_lyrics_server_analyze_check() {
    let mut st = AnalyzerState::new();
    mark_force_transcribe(&mut st, "b");
    let (mut run, next) = SongRun::new("a");
    assert!(matches!(next, SongNext::PrepareAudio));
    let step = song_step(&mut run, &mut st, SongEvent::Prepared { result: Ok(s("b")), use_external_lyrics: true });
    assert!(matches!(step.next, SongNext::FindLyrics(LyricsSource::Skip)));
    assert!(matches!(step.status, Some((ref h, QueuedStatus::Analyzing(0))) if h == "b"));
    assert!(!step.move_transcript);
    assert!(st.force_transcribe.is_empty());
    let step = song_step(&mut run, &mut st, SongEvent::LyricsFound {
        lyrics: Some(s("ignored")),
        language_override: Some(s("en")),
        song_language: None,
    });
    assert!(run.lyrics.is_none());
    assert_eq!(run.language, Some(s("en")));
    assert!(matches!(step.next, SongNext::StartServer));
    let step = song_step(&mut run, &mut st, SongEvent::ServerStarted(Ok(())));
    assert!(matches!(step.next, SongNext::RunAnalysis));
    let step = song_step(&mut run, &mut st, SongEvent::Analyzed(AttemptResult::Oom));
    assert!(step.drop_server);
    assert!(matches!(step.next, SongNext::StartServer));
    song_step(&mut run, &mut st, SongEvent::ServerStarted(Ok(())));
    let step = song_step(&mut run, &mut st, SongEvent::Analyzed(AttemptResult::Done));
    assert!(!step.drop_server && step.status.is_none());
    assert!(matches!(step.next, SongNext::CheckOutput));
    let step = song_step(&mut run, &mut st, SongEvent::OutputChecked(true));
    assert!(step.mark_analyzed);
    assert!(matches!(step.next, SongNext::Finish));
    assert_eq!(run.stage, SongStage::Done);
}

#[test]
fn a_failed_preparation_is_recorded_on_the_queued_hash() {
    let mut st = AnalyzerState::new();
    let (mut run, _) = SongRun::new("a");
    let step = song_step(&mut run, &mut st, SongEvent::Prepared { result: Err(s("gone")), use_external_lyrics: false });
    assert!(matches!(step.next, SongNext::Finish));
    match step.status {
        Some((h, QueuedStatus::Failed { kind, message, .. })) => {
            assert_eq!(h, "a");
            assert_eq!(kind, FailureKind::AudioPrep);
            assert_eq!(message, "audio prep failed: gone");
        }
        _ => panic!("no failure recorded"),
    }
}
