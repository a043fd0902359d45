//! Decisions of one analysis run: which lyrics to hand the analyzer, what
//! language hint to pass, how each server event is handled, and how an
//! attempt's outcome turns into a retry, a finalize or a recorded failure.

use vstd::prelude::*;

use crate::analysis_queue::{FailureKind, QueuedStatus, QueuedStatusView};
use crate::analyzer::{take_force_transcribe, take_stems_only, without, AnalyzerState};
use crate::keyed::views_of;
use crate::text::{ascii_lower, str_equals, to_ascii_lowercase, trim, trimmed};

verus! {

/// How long separation must run before the contention sample taken during
/// it is collected, in milliseconds.
pub const SEPARATION_SNAPSHOT_DELAY_MS: u64 = 120_000;

/// One event the analyzer server reports while analyzing.
pub enum ServerEvent {
    Progress { pct: u32, msg: String },
    Starting { stage: String },
    Timing { stage: String, ms: u64 },
    Done,
    Error { kind: Option<String>, msg: String },
    Unknown,
}

/// How a run ended, as the server reported it.
pub enum MonitorResult {
    /// The run finished; the `(stage, ms)` timings it reported, in order.
    Done(Vec<(String, u64)>),
    Oom,
    Error(String),
}

/// What to do with one server event.
pub enum EventStep {
    /// Read the next event.
    Continue,
    /// Record `Analyzing(pct)` on the song's queue row, then read on.
    Progress(usize),
    /// Separation began: start the delayed contention sample, read on.
    StartSample,
    /// A stage's timing was recorded; read on. When `ends_sample` the
    /// pending contention sample is done with, and collected first when
    /// `take_sample` (separation ran long enough for it to be taken).
    Timing { ends_sample: bool, take_sample: bool },
    /// The run is over.
    Finished(MonitorResult),
}

/// What watching one run keeps: whether it reports progress (false for
/// runs kept off the queue, such as key-only passes) and the stage timings
/// reported so far, in order.
pub struct RunMonitor {
    pub reports_progress: bool,
    pub timings: Vec<(String, u64)>,
}

impl RunMonitor {
    /// A run about to start: no timing reported yet.
    pub fn new(reports_progress: bool) -> (r: RunMonitor)
        ensures
            r.reports_progress == reports_progress,
            r.timings@.len() == 0,
    {
        RunMonitor { reports_progress, timings: Vec::new() }
    }
}

/// Handles one server event of the run `m` watches. A timing event is
/// appended to the run's timings; a finished run hands back every timing
/// it reported, in the order reported.
pub fn handle_server_event(m: &mut RunMonitor, event: ServerEvent) -> (r: EventStep)
    ensures
        final(m).reports_progress == old(m).reports_progress,
        event matches ServerEvent::Progress { pct, msg } ==> final(m).timings@ == old(m).timings@
            && if old(m).reports_progress {
            r == EventStep::Progress(pct as usize)
        } else {
            r == EventStep::Continue
        },
        event matches ServerEvent::Starting { stage } ==> final(m).timings@ == old(m).timings@
            && if stage@ == "separation"@ {
            r == EventStep::StartSample
        } else {
            r == EventStep::Continue
        },
        event matches ServerEvent::Timing { stage, ms } ==> {
            &&& final(m).timings@ == old(m).timings@.push((stage, ms))
            &&& r == (EventStep::Timing {
                ends_sample: stage@ == "separation"@,
                take_sample: stage@ == "separation"@ && ms >= SEPARATION_SNAPSHOT_DELAY_MS,
            })
        },
        event matches ServerEvent::Done ==> {
            &&& final(m).timings@.len() == 0
            &&& r matches EventStep::Finished(MonitorResult::Done(ts))
            &&& ts@ == old(m).timings@
        },
        event matches ServerEvent::Error { kind, msg } ==> {
            let k = match kind {
                Some(k) => k@,
                None => "generic"@,
            };
            &&& final(m).timings@ == old(m).timings@
            &&& if k == "oom"@ {
                r == EventStep::Finished(MonitorResult::Oom)
            } else {
                r matches EventStep::Finished(MonitorResult::Error(e)) && e@ == (if msg@.len() == 0 {
                    "Unknown error"@
                } else {
                    msg@
                })
            }
        },
        event matches ServerEvent::Unknown ==> final(m).timings@ == old(m).timings@ && r
            == EventStep::Continue,
{
    match event {
        ServerEvent::Progress { pct, msg } => {
            if m.reports_progress {
                EventStep::Progress(pct as usize)
            } else {
                EventStep::Continue
            }
        },
        ServerEvent::Starting { stage } => {
            if str_equals(stage.as_str(), "separation") {
                EventStep::StartSample
            } else {
                EventStep::Continue
            }
        },
        ServerEvent::Timing { stage, ms } => {
            let ends_sample = str_equals(stage.as_str(), "separation");
            let take_sample = ends_sample && ms >= SEPARATION_SNAPSHOT_DELAY_MS;
            m.timings.push((stage, ms));
            EventStep::Timing { ends_sample, take_sample }
        },
        ServerEvent::Done => {
            let mut ts: Vec<(String, u64)> = Vec::new();
            std::mem::swap(&mut ts, &mut m.timings);
            EventStep::Finished(MonitorResult::Done(ts))
        },
        ServerEvent::Error { kind, msg } => {
            let is_oom = match &kind {
                Some(k) => str_equals(k.as_str(), "oom"),
                None => str_equals("generic", "oom"),
            };
            if is_oom {
                EventStep::Finished(MonitorResult::Oom)
            } else if msg.as_str().is_empty() {
                EventStep::Finished(MonitorResult::Error("Unknown error".to_owned()))
            } else {
                EventStep::Finished(MonitorResult::Error(msg))
            }
        },
        ServerEvent::Unknown => EventStep::Continue,
    }
}

/// The first recorded duration of stage `name`.
pub open spec fn first_stage_ms(s: Seq<(String, u64)>, name: Seq<char>) -> Option<u64>
    decreases s.len(),
{
    if s.len() == 0 {
        None
    } else if s[0].0@ == name {
        Some(s[0].1)
    } else {
        first_stage_ms(s.drop_first(), name)
    }
}

/// The duration the run recorded for stage `name`, if any.
pub fn stage_ms(timings: &Vec<(String, u64)>, name: &str) -> (r: Option<u64>)
    ensures
        r == first_stage_ms(timings@, name@),
{
    let mut i: usize = 0;
    assert(timings@.subrange(0, timings@.len() as int) =~= timings@);
    while i < timings.len()
        invariant
            i <= timings@.len(),
            first_stage_ms(timings@, name@) == first_stage_ms(timings@.subrange(i as int, timings@.len() as int), name@),
        decreases timings@.len() - i,
    {
        let ghost rest = timings@.subrange(i as int, timings@.len() as int);
        assert(rest.drop_first() =~= timings@.subrange(i + 1, timings@.len() as int));
        assert(rest[0] == timings@[i as int]);
        if str_equals(timings[i].0.as_str(), name) {
            return Some(timings[i].1);
        }
        i = i + 1;
    }
    None
}

/// How one analysis attempt ended.
pub enum AttemptResult {
    /// The server finished the run.
    Done,
    /// The GPU ran out of memory.
    Oom,
    /// The worker reported an error for this song.
    Error(String),
    /// The connection to the server failed (it crashed).
    Crashed(String),
}

/// Whether the server is dropped after an attempt: after running out of
/// memory or crashing, so that any next attempt starts a fresh one.
pub fn drops_server(result: &AttemptResult) -> (r: bool)
    ensures
        r == (result is Oom || result is Crashed),
{
    match result {
        AttemptResult::Oom => true,
        AttemptResult::Crashed(_) => true,
        _ => false,
    }
}

/// What follows an attempt.
pub enum AttemptDecision {
    /// Finalize the song.
    Finalize,
    /// Drop the server, record `Analyzing(0)` and try once more.
    Retry,
    /// Record this failed status; the run is over.
    Fail(QueuedStatus),
}

/// Decides what follows an attempt; an out-of-memory or a crash is retried
/// once with a fresh server, a worker error never is.
pub fn analysis_attempt_decision(result: AttemptResult, retried: bool) -> (r: AttemptDecision)
    ensures
        result matches AttemptResult::Done ==> r is Finalize,
        result matches AttemptResult::Oom ==> if retried {
            r matches AttemptDecision::Fail(s) && s@ == (QueuedStatusView::Failed {
                kind: FailureKind::GpuOom,
                message: "CUDA out of memory"@,
                acknowledged: false,
            })
        } else {
            r is Retry
        },
        result matches AttemptResult::Error(m) ==> (r matches AttemptDecision::Fail(s) && s@ == (
        QueuedStatusView::Failed { kind: FailureKind::Worker, message: m@, acknowledged: false })),
        result matches AttemptResult::Crashed(e) ==> if retried {
            r matches AttemptDecision::Fail(s) && s@ == (QueuedStatusView::Failed {
                kind: FailureKind::ServerCrash,
                message: "Server crashed: "@ + e@,
                acknowledged: false,
            })
        } else {
            r is Retry
        },
{
    match result {
        AttemptResult::Done => AttemptDecision::Finalize,
        AttemptResult::Oom => {
            if retried {
                AttemptDecision::Fail(
                    QueuedStatus::Failed {
                        kind: FailureKind::GpuOom,
                        message: "CUDA out of memory".to_owned(),
                        acknowledged: false,
                    },
                )
            } else {
                AttemptDecision::Retry
            }
        },
        AttemptResult::Error(message) => AttemptDecision::Fail(
            QueuedStatus::Failed { kind: FailureKind::Worker, message, acknowledged: false },
        ),
        AttemptResult::Crashed(e) => {
            if retried {
                let message = "Server crashed: ".to_owned().concat(e.as_str());
                AttemptDecision::Fail(
                    QueuedStatus::Failed { kind: FailureKind::ServerCrash, message, acknowledged: false },
                )
            } else {
                AttemptDecision::Retry
            }
        },
    }
}

/// The status recorded when the analyzer server can't be started.
pub fn server_startup_failure(message: String) -> (r: QueuedStatus)
    ensures
        r@ == (QueuedStatusView::Failed {
            kind: FailureKind::ServerStartup,
            message: message@,
            acknowledged: false,
        }),
{
    QueuedStatus::Failed { kind: FailureKind::ServerStartup, message, acknowledged: false }
}

/// The status recorded when the song's audio can't be prepared.
pub fn audio_prep_failure(error: &str) -> (r: QueuedStatus)
    ensures
        r@ == (QueuedStatusView::Failed {
            kind: FailureKind::AudioPrep,
            message: "audio prep failed: "@ + error@,
            acknowledged: false,
        }),
{
    QueuedStatus::Failed {
        kind: FailureKind::AudioPrep,
        message: "audio prep failed: ".to_owned().concat(error),
        acknowledged: false,
    }
}

/// What follows a key-only pass.
pub enum KeyPassDecision {
    Done,
    Retry,
    Fail(String),
}

/// A key-only pass is retried once on an out-of-memory or a crash.
pub fn key_pass_decision(result: AttemptResult, retried: bool) -> (r: KeyPassDecision)
    ensures
        result matches AttemptResult::Done ==> r is Done,
        (result is Oom || result is Crashed) ==> if retried {
            r matches KeyPassDecision::Fail(m) && m@ == "key detection failed"@
        } else {
            r is Retry
        },
        result matches AttemptResult::Error(m) ==> (r matches KeyPassDecision::Fail(f) && f@ == m@),
{
    match result {
        AttemptResult::Done => KeyPassDecision::Done,
        AttemptResult::Error(m) => KeyPassDecision::Fail(m),
        _ => {
            if retried {
                KeyPassDecision::Fail("key detection failed".to_owned())
            } else {
                KeyPassDecision::Retry
            }
        },
    }
}

/// After a finished run: `None` when the transcript landed (the hash leaves
/// the queue and the song is marked analyzed from the transcript), else the
/// failure to record.
pub fn finalize_song(transcript_exists: bool) -> (r: Option<QueuedStatus>)
    ensures
        transcript_exists ==> r is None,
        !transcript_exists ==> (r matches Some(s) && s@ == (QueuedStatusView::Failed {
            kind: FailureKind::MissingOutput,
            message: "Transcript file not found after analysis"@,
            acknowledged: false,
        })),
{
    if transcript_exists {
        None
    } else {
        Some(
            QueuedStatus::Failed {
                kind: FailureKind::MissingOutput,
                message: "Transcript file not found after analysis".to_owned(),
                acknowledged: false,
            },
        )
    }
}

/// A language hint the worker can use: not blank, "unknown" or "und" once
/// trimmed and lowercased.
pub open spec fn usable_language(l: Seq<char>) -> bool {
    let n = ascii_lower(trim(l));
    n.len() > 0 && n != "unknown"@ && n != "und"@
}

/// The language hint for the given inputs (see `language_hint`).
pub open spec fn language_choice(
    language_override: Option<String>,
    lyrics_found: bool,
    song_language: Option<String>,
) -> Option<String> {
    let chosen = match language_override {
        Some(l) => Some(l),
        None => if lyrics_found {
            song_language
        } else {
            None
        },
    };
    match chosen {
        Some(l) => if usable_language(l@) {
            Some(l)
        } else {
            None
        },
        None => None,
    }
}

/// The language passed to the worker: the user's override, or else (only
/// when lyrics were found) the song's own language; dropped when unusable.
pub fn language_hint(
    language_override: Option<String>,
    lyrics_found: bool,
    song_language: Option<String>,
) -> (r: Option<String>)
    ensures
        r == language_choice(language_override, lyrics_found, song_language),
        ({
            let chosen = match language_override {
                Some(l) => Some(l),
                None => if lyrics_found {
                    song_language
                } else {
                    None
                },
            };
            match chosen {
                Some(l) => if usable_language(l@) {
                    r == Some(l)
                } else {
                    r is None
                },
                None => r is None,
            }
        }),
{
    let chosen = match language_override {
        Some(l) => Some(l),
        None => if lyrics_found {
            song_language
        } else {
            None
        },
    };
    match chosen {
        Some(l) => {
            let t = trimmed(l.as_str());
            let n = to_ascii_lowercase(t.as_str());
            if n.as_str().is_empty() || str_equals(n.as_str(), "unknown") || str_equals(
                n.as_str(),
                "und",
            ) {
                None
            } else {
                Some(l)
            }
        },
        None => None,
    }
}

/// Where a run's lyrics come from.
#[derive(Debug, Clone, Copy, PartialEq, Eq, Structural)]
pub enum LyricsSource {
    /// No lookup: the run transcribes (or only separates stems).
    Skip,
    /// A sidecar `.lrc` or an embedded tag first, LRCLIB only if neither.
    LocalThenLrclib,
    /// LRCLIB only.
    LrclibOnly,
}

/// Whether the run skips the lyrics lookup (stems-only runs, and runs
/// marked for transcription; the mark is taken only when it is looked at).
pub fn skip_lrclib(state: &mut AnalyzerState, stems_only: bool, file_hash: &str) -> (r: bool)
    requires
        old(state).wf(),
    ensures
        final(state).wf(),
        stems_only ==> r && *final(state) == *old(state),
        !stems_only ==> r == views_of(old(state).force_transcribe@).contains(file_hash@)
            && views_of(final(state).force_transcribe@) == without(
            views_of(old(state).force_transcribe@),
            file_hash@,
        ) && final(state).worker_running == old(state).worker_running,
        final(state).queue == old(state).queue,
        final(state).active_hash == old(state).active_hash,
        final(state).stems_only == old(state).stems_only,
{
    if stems_only {
        true
    } else {
        take_force_transcribe(state, file_hash)
    }
}

/// Where the lyrics come from, given whether the lookup is skipped and
/// whether the user prefers local lyrics.
pub fn lyrics_source(skip: bool, use_external_lyrics: bool) -> (r: LyricsSource)
    ensures
        r == (if skip {
            LyricsSource::Skip
        } else if use_external_lyrics {
            LyricsSource::LocalThenLrclib
        } else {
            LyricsSource::LrclibOnly
        }),
{
    if skip {
        LyricsSource::Skip
    } else if use_external_lyrics {
        LyricsSource::LocalThenLrclib
    } else {
        LyricsSource::LrclibOnly
    }
}

/// Where one song's analysis stands.
#[derive(Debug, Clone, Copy, PartialEq, Eq, Structural)]
pub enum SongStage {
    /// The song's audio is being prepared.
    Prepare,
    /// Its lyrics and language hint are being looked up.
    Lyrics,
    /// The analyzer server is being started (unless it runs).
    Server,
    /// The server is analyzing the song.
    Analyze,
    /// The run's output is being checked.
    CheckOutput,
    /// The run is over.
    Done,
}

/// One song's analysis run.
pub struct SongRun {
    /// The hash the song was queued under.
    pub initial_hash: String,
    /// The hash it is analyzed under (the prepared audio may hash
    /// differently).
    pub file_hash: String,
    pub stage: SongStage,
    /// Only stems are separated; the provided transcript is kept.
    pub stems_only: bool,
    pub lyrics_source: LyricsSource,
    pub lyrics: Option<String>,
    pub language: Option<String>,
    /// The one retry after an out-of-memory or a crash was used.
    pub retried: bool,
}

/// What the outside work of the current stage reported.
pub enum SongEvent {
    /// The audio was prepared (the hash to analyze under, or the error);
    /// whether the user prefers local lyrics.
    Prepared { result: Result<String, String>, use_external_lyrics: bool },
    /// The lyrics lookup `FindLyrics` asked for, the user's language
    /// override and the song's stored language.
    LyricsFound {
        lyrics: Option<String>,
        language_override: Option<String>,
        song_language: Option<String>,
    },
    /// Starting the server (unless it ran) succeeded, or failed with this.
    ServerStarted(Result<(), String>),
    /// How the analysis attempt ended.
    Analyzed(AttemptResult),
    /// Whether the transcript exists.
    OutputChecked(bool),
}

/// What to do next.
pub enum SongNext {
    /// Prepare the song's audio.
    PrepareAudio,
    /// Look the lyrics up as the source says (nothing for `Skip`).
    FindLyrics(LyricsSource),
    /// Start the analyzer server unless it runs.
    StartServer,
    /// Run the analysis of `file_hash` with the run's stems-only flag,
    /// lyrics and language.
    RunAnalysis,
    /// Check that the transcript exists.
    CheckOutput,
    /// The run is over.
    Finish,
}

/// One step's actions, performed in this order, then `next`.
pub struct SongStep {
    /// Move the provided transcript from the initial hash to the prepared one.
    pub move_transcript: bool,
    /// Drop the analyzer server, so that any next attempt starts a fresh one.
    pub drop_server: bool,
    /// Record this status on the stored queue row of this hash.
    pub status: Option<(String, QueuedStatus)>,
    /// Mark the song analyzed from its transcript and drop its queue row.
    pub mark_analyzed: bool,
    pub next: SongNext,
}

/// The recorded status of a step, as hash and status view.
pub open spec fn status_view(s: Option<(String, QueuedStatus)>) -> Option<(Seq<char>, QueuedStatusView)> {
    match s {
        Some((h, st)) => Some((h@, st@)),
        None => None,
    }
}

impl SongRun {
    /// Whether `event` is what the current stage waits for.
    pub open spec fn expects(&self, event: SongEvent) -> bool {
        match self.stage {
            SongStage::Prepare => event is Prepared,
            SongStage::Lyrics => event is LyricsFound,
            SongStage::Server => event is ServerStarted,
            SongStage::Analyze => event is Analyzed,
            SongStage::CheckOutput => event is OutputChecked,
            SongStage::Done => false,
        }
    }

    /// Starts the analysis of the song queued under `initial_hash`: its
    /// audio is prepared first.
    pub fn new(initial_hash: &str) -> (r: (SongRun, SongNext))
        ensures
            r.0.initial_hash@ == initial_hash@,
            r.0.file_hash@ == initial_hash@,
            r.0.stage == SongStage::Prepare,
            !r.0.stems_only,
            r.0.lyrics is None,
            r.0.language is None,
            !r.0.retried,
            r.1 is PrepareAudio,
    {
        (
            SongRun {
                initial_hash: initial_hash.to_owned(),
                file_hash: initial_hash.to_owned(),
                stage: SongStage::Prepare,
                stems_only: false,
                lyrics_source: LyricsSource::Skip,
                lyrics: None,
                language: None,
                retried: false,
            },
            SongNext::PrepareAudio,
        )
    }
}

fn song_step_of(status: Option<(String, QueuedStatus)>, next: SongNext) -> (r: SongStep)
    ensures
        !r.move_transcript,
        !r.drop_server,
        !r.mark_analyzed,
        r.status == status,
        r.next == next,
{
    SongStep { move_transcript: false, drop_server: false, status, mark_analyzed: false, next }
}

/// Advances one song's analysis by one step, in the order the analysis
/// goes: prepare the audio (a failure is recorded on the queued hash), take
/// the run's stems-only and forced-transcription marks, look the lyrics up,
/// start the server, analyze (an out-of-memory or a crash drops the server
/// and is retried once), and check the output before marking the song
/// analyzed. Every failure is recorded on the song's queue row and ends
/// the run.
pub fn song_step(run: &mut SongRun, state: &mut AnalyzerState, event: SongEvent) -> (r: SongStep)
    requires
        old(run).expects(event),
        old(state).wf(),
    ensures
        final(state).wf(),
        final(state).queue == old(state).queue,
        final(state).active_hash == old(state).active_hash,
        final(state).worker_running == old(state).worker_running,
        final(run).initial_hash == old(run).initial_hash,
        !(event is Prepared) ==> *final(state) == *old(state) && final(run).file_hash
            == old(run).file_hash && final(run).stems_only == old(run).stems_only,
        !(event is Prepared) ==> !r.move_transcript,
        !(event is Analyzed) ==> !r.drop_server && final(run).retried == old(run).retried,
        !(event is OutputChecked) ==> !r.mark_analyzed,
        match event {
            SongEvent::Prepared { result, use_external_lyrics } => match result {
                Err(e) => {
                    &&& *final(state) == *old(state)
                    &&& !r.move_transcript
                    &&& status_view(r.status) == Some(
                        (old(run).initial_hash@, QueuedStatusView::Failed {
                            kind: FailureKind::AudioPrep,
                            message: "audio prep failed: "@ + e@,
                            acknowledged: false,
                        }),
                    )
                    &&& final(run).stage == SongStage::Done
                    &&& r.next is Finish
                },
                Ok(h) => {
                    let stems0 = views_of(old(state).stems_only@);
                    let force0 = views_of(old(state).force_transcribe@);
                    let init = old(run).initial_hash@;
                    let stems = stems0.contains(h@) || stems0.contains(init);
                    let skip = stems || force0.contains(h@);
                    let source = if skip {
                        LyricsSource::Skip
                    } else if use_external_lyrics {
                        LyricsSource::LocalThenLrclib
                    } else {
                        LyricsSource::LrclibOnly
                    };
                    &&& final(run).file_hash@ == h@
                    &&& final(run).stems_only == stems
                    &&& final(run).lyrics_source == source
                    &&& final(run).stage == SongStage::Lyrics
                    &&& status_view(r.status) == Some((h@, QueuedStatusView::Analyzing(0)))
                    &&& r.move_transcript == (stems && h@ != init)
                    &&& r.next == SongNext::FindLyrics(source)
                    &&& views_of(final(state).stems_only@) == if stems0.contains(h@) {
                        without(stems0, h@)
                    } else {
                        without(stems0, init)
                    }
                    &&& views_of(final(state).force_transcribe@) == if stems {
                        force0
                    } else {
                        without(force0, h@)
                    }
                },
            },
            SongEvent::LyricsFound { lyrics, language_override, song_language } => {
                let found = if old(run).lyrics_source == LyricsSource::Skip {
                    None
                } else {
                    lyrics
                };
                &&& final(run).lyrics == found
                &&& final(run).language == language_choice(
                    language_override,
                    found is Some,
                    song_language,
                )
                &&& final(run).stage == SongStage::Server
                &&& r.status is None
                &&& r.next is StartServer
            },
            SongEvent::ServerStarted(res) => match res {
                Err(e) => {
                    &&& status_view(r.status) == Some(
                        (
                            old(run).file_hash@,
                            QueuedStatusView::Failed {
                                kind: FailureKind::ServerStartup,
                                message: e@,
                                acknowledged: false,
                            },
                        ),
                    )
                    &&& final(run).stage == SongStage::Done
                    &&& r.next is Finish
                },
                Ok(()) => {
                    &&& r.status is None
                    &&& final(run).stage == SongStage::Analyze
                    &&& r.next is RunAnalysis
                },
            },
            SongEvent::Analyzed(result) => {
                let h = old(run).file_hash@;
                &&& r.drop_server == (result is Oom || result is Crashed)
                &&& match result {
                    AttemptResult::Done => {
                        &&& r.status is None
                        &&& final(run).retried == old(run).retried
                        &&& final(run).stage == SongStage::CheckOutput
                        &&& r.next is CheckOutput
                    },
                    AttemptResult::Error(m) => {
                        &&& status_view(r.status) == Some(
                            (
                                h,
                                QueuedStatusView::Failed {
                                    kind: FailureKind::Worker,
                                    message: m@,
                                    acknowledged: false,
                                },
                            ),
                        )
                        &&& final(run).stage == SongStage::Done
                        &&& r.next is Finish
                    },
                    AttemptResult::Oom => if old(run).retried {
                        &&& status_view(r.status) == Some(
                            (
                                h,
                                QueuedStatusView::Failed {
                                    kind: FailureKind::GpuOom,
                                    message: "CUDA out of memory"@,
                                    acknowledged: false,
                                },
                            ),
                        )
                        &&& final(run).stage == SongStage::Done
                        &&& r.next is Finish
                    } else {
                        &&& status_view(r.status) == Some((h, QueuedStatusView::Analyzing(0)))
                        &&& final(run).retried
                        &&& final(run).stage == SongStage::Server
                        &&& r.next is StartServer
                    },
                    AttemptResult::Crashed(e) => if old(run).retried {
                        &&& status_view(r.status) == Some(
                            (
                                h,
                                QueuedStatusView::Failed {
                                    kind: FailureKind::ServerCrash,
                                    message: "Server crashed: "@ + e@,
                                    acknowledged: false,
                                },
                            ),
                        )
                        &&& final(run).stage == SongStage::Done
                        &&& r.next is Finish
                    } else {
                        &&& status_view(r.status) == Some((h, QueuedStatusView::Analyzing(0)))
                        &&& final(run).retried
                        &&& final(run).stage == SongStage::Server
                        &&& r.next is StartServer
                    },
                }
            },
            SongEvent::OutputChecked(exists) => {
                &&& final(run).stage == SongStage::Done
                &&& r.next is Finish
                &&& if exists {
                    r.mark_analyzed && r.status is None
                } else {
                    &&& !r.mark_analyzed
                    &&& status_view(r.status) == Some(
                        (
                            old(run).file_hash@,
                            QueuedStatusView::Failed {
                                kind: FailureKind::MissingOutput,
                                message: "Transcript file not found after analysis"@,
                                acknowledged: false,
                            },
                        ),
                    )
                }
            },
        },
{
    match event {
        SongEvent::Prepared { result, use_external_lyrics } => match result {
            Err(e) => {
                run.stage = SongStage::Done;
                let status = audio_prep_failure(e.as_str());
                song_step_of(Some((run.initial_hash.clone(), status)), SongNext::Finish)
            },
            Ok(h) => {
                let stems = take_stems_only(state, h.as_str(), run.initial_hash.as_str());
                let skip = skip_lrclib(state, stems, h.as_str());
                let source = lyrics_source(skip, use_external_lyrics);
                let moved = stems && !str_equals(h.as_str(), run.initial_hash.as_str());
                run.file_hash = h;
                run.stems_only = stems;
                run.lyrics_source = source;
                run.stage = SongStage::Lyrics;
                SongStep {
                    move_transcript: moved,
                    drop_server: false,
                    status: Some((run.file_hash.clone(), QueuedStatus::Analyzing(0))),
                    mark_analyzed: false,
                    next: SongNext::FindLyrics(source),
                }
            },
        },
        SongEvent::LyricsFound { lyrics, language_override, song_language } => {
            let found = match run.lyrics_source {
                LyricsSource::Skip => None,
                _ => lyrics,
            };
            let has = found.is_some();
            run.language = language_hint(language_override, has, song_language);
            run.lyrics = found;
            run.stage = SongStage::Server;
            song_step_of(None, SongNext::StartServer)
        },
        SongEvent::ServerStarted(res) => match res {
            Err(e) => {
                run.stage = SongStage::Done;
                let status = server_startup_failure(e);
                song_step_of(Some((run.file_hash.clone(), status)), SongNext::Finish)
            },
            Ok(()) => {
                run.stage = SongStage::Analyze;
                song_step_of(None, SongNext::RunAnalysis)
            },
        },
        SongEvent::Analyzed(result) => {
            let drop = drops_server(&result);
            let (status, next) = match analysis_attempt_decision(result, run.retried) {
                AttemptDecision::Finalize => {
                    run.stage = SongStage::CheckOutput;
                    (None, SongNext::CheckOutput)
                },
                AttemptDecision::Retry => {
                    run.retried = true;
                    run.stage = SongStage::Server;
                    (Some((run.file_hash.clone(), QueuedStatus::Analyzing(0))), SongNext::StartServer)
                },
                AttemptDecision::Fail(failed) => {
                    run.stage = SongStage::Done;
                    (Some((run.file_hash.clone(), failed)), SongNext::Finish)
                },
            };
            SongStep { move_transcript: false, drop_server: drop, status, mark_analyzed: false, next }
        },
        SongEvent::OutputChecked(exists) => {
            run.stage = SongStage::Done;
            match finalize_song(exists) {
                None => SongStep {
                    move_transcript: false,
                    drop_server: false,
                    status: None,
                    mark_analyzed: true,
                    next: SongNext::Finish,
                },
                Some(failed) => song_step_of(Some((run.file_hash.clone(), failed)), SongNext::Finish),
            }
        },
    }
}

} // verus!
