//! The decisions around pre-rendered karaoke videos: when a cached render
//! is still fresh, what the side table of rendered versions becomes after
//! a render, how the YouTube lookup -> download -> render pipeline moves
//! from step to step and what it records, and which flavor is shown.
//!
//! Two flavors are cached side by side per song: one over a reel
//! background, one over the song's official music video from YouTube.

use vstd::prelude::*;

use crate::text::{has_suffix, strip_suffix};
use crate::RENDER_VERSION;

verus! {

/// Which of the two cached karaoke-video flavors.
#[derive(Debug, Clone, Copy, PartialEq, Eq, Structural)]
pub enum KaraokeVideoKind {
    Reel,
    Youtube,
}

impl KaraokeVideoKind {
    /// The name recorded in a run row's `kind` column.
    pub open spec fn db_name(self) -> Seq<char> {
        match self {
            KaraokeVideoKind::Reel => "reel"@,
            KaraokeVideoKind::Youtube => "youtube"@,
        }
    }

    /// The name recorded for this flavor.
    pub fn as_db_str(self) -> (r: &'static str)
        ensures
            r@ == self.db_name(),
    {
        match self {
            KaraokeVideoKind::Reel => "reel",
            KaraokeVideoKind::Youtube => "youtube",
        }
    }
}

/// Outcome of asking for a YouTube-background video. `music_video_found`
/// false always comes with an error; an error with `music_video_found` true
/// means a video was found but could not be downloaded, synced or rendered.
pub struct KaraokeVideoReady {
    pub file_hash: String,
    pub music_video_found: bool,
    pub error: Option<String>,
}

/// A `KaraokeVideoReady` with its strings taken by their characters.
pub struct KaraokeVideoReadyView {
    pub file_hash: Seq<char>,
    pub music_video_found: bool,
    pub error: Option<Seq<char>>,
}

impl View for KaraokeVideoReady {
    type V = KaraokeVideoReadyView;

    open spec fn view(&self) -> KaraokeVideoReadyView {
        KaraokeVideoReadyView {
            file_hash: self.file_hash@,
            music_video_found: self.music_video_found,
            error: match self.error {
                Some(e) => Some(e@),
                None => None,
            },
        }
    }
}

/// One row of the karaoke-video run history: which stage a run reached and
/// how long each stage took.
pub struct KaraokeVideoRunRow {
    pub file_hash: String,
    /// `"reel"` or `"youtube"`.
    pub kind: String,
    /// `"rendered"`, `"skipped_fresh"`, `"no_video_found"` or `"error"`.
    pub status: String,
    pub error: Option<String>,
    pub lookup_ms: Option<u64>,
    pub download_ms: Option<u64>,
    pub render_ms: Option<u64>,
    pub total_ms: u64,
}

/// A `KaraokeVideoRunRow` with its strings taken by their characters.
pub struct KaraokeVideoRunView {
    pub file_hash: Seq<char>,
    pub kind: Seq<char>,
    pub status: Seq<char>,
    pub error: Option<Seq<char>>,
    pub lookup_ms: Option<u64>,
    pub download_ms: Option<u64>,
    pub render_ms: Option<u64>,
    pub total_ms: u64,
}

impl View for KaraokeVideoRunRow {
    type V = KaraokeVideoRunView;

    open spec fn view(&self) -> KaraokeVideoRunView {
        KaraokeVideoRunView {
            file_hash: self.file_hash@,
            kind: self.kind@,
            status: self.status@,
            error: match self.error {
                Some(e) => Some(e@),
                None => None,
            },
            lookup_ms: self.lookup_ms,
            download_ms: self.download_ms,
            render_ms: self.render_ms,
            total_ms: self.total_ms,
        }
    }
}

/// The version recorded for `kind` among the recorded `(reel, youtube)`
/// versions.
pub open spec fn version_of(versions: (u32, u32), kind: KaraokeVideoKind) -> u32 {
    match kind {
        KaraokeVideoKind::Reel => versions.0,
        KaraokeVideoKind::Youtube => versions.1,
    }
}

/// A cached render is fresh when both files exist, the video is not older
/// than the transcript it was rendered from, and it was rendered by the
/// current renderer version. Times are the files' modification times.
pub open spec fn fresh(
    video_modified: Option<i128>,
    transcript_modified: Option<i128>,
    versions: (u32, u32),
    kind: KaraokeVideoKind,
) -> bool {
    match (video_modified, transcript_modified) {
        (Some(v), Some(t)) => v >= t && version_of(versions, kind) == RENDER_VERSION,
        _ => false,
    }
}

/// Whether the cached render of `kind` is fresh (see `fresh`); a missing
/// file or an unreadable time is `None`.
pub fn is_fresh(
    video_modified: Option<i128>,
    transcript_modified: Option<i128>,
    versions: (u32, u32),
    kind: KaraokeVideoKind,
) -> (r: bool)
    ensures
        r == fresh(video_modified, transcript_modified, versions, kind),
{
    match (video_modified, transcript_modified) {
        (Some(v), Some(t)) => {
            if v < t {
                return false;
            }
            let recorded = match kind {
                KaraokeVideoKind::Reel => versions.0,
                KaraokeVideoKind::Youtube => versions.1,
            };
            recorded == RENDER_VERSION
        },
        _ => false,
    }
}

/// Whether a fresh YouTube-background render is already on disk.
pub fn has_fresh_youtube_video(
    video_is_file: bool,
    video_modified: Option<i128>,
    transcript_modified: Option<i128>,
    versions: (u32, u32),
) -> (r: bool)
    ensures
        r == (video_is_file && fresh(
            video_modified,
            transcript_modified,
            versions,
            KaraokeVideoKind::Youtube,
        )),
{
    video_is_file && is_fresh(
        video_modified,
        transcript_modified,
        versions,
        KaraokeVideoKind::Youtube,
    )
}

/// The recorded `(reel, youtube)` versions after stamping `kind` with
/// `version`.
pub open spec fn stamped(versions: (u32, u32), kind: KaraokeVideoKind, version: u32) -> (u32, u32) {
    match kind {
        KaraokeVideoKind::Reel => (version, versions.1),
        KaraokeVideoKind::Youtube => (versions.0, version),
    }
}

/// After a successful render of `kind`: `None` when that flavor is already
/// recorded at `version` (nothing to write), else the `(reel, youtube)`
/// versions to record and mirror onto the song.
pub fn record_karaoke_video_status_at_version(
    versions: (u32, u32),
    kind: KaraokeVideoKind,
    version: u32,
) -> (r: Option<(u32, u32)>)
    ensures
        r == (if version_of(versions, kind) == version {
            None
        } else {
            Some(stamped(versions, kind, version))
        }),
{
    let (reel_version, youtube_version) = versions;
    let already_recorded = match kind {
        KaraokeVideoKind::Reel => reel_version == version,
        KaraokeVideoKind::Youtube => youtube_version == version,
    };
    if already_recorded {
        return None;
    }
    match kind {
        KaraokeVideoKind::Reel => Some((version, youtube_version)),
        KaraokeVideoKind::Youtube => Some((reel_version, version)),
    }
}

/// `record_karaoke_video_status_at_version` at the current renderer
/// version.
pub fn record_karaoke_video_status(versions: (u32, u32), kind: KaraokeVideoKind) -> (r: Option<
    (u32, u32),
>)
    ensures
        r == (if version_of(versions, kind) == RENDER_VERSION {
            None
        } else {
            Some(stamped(versions, kind, RENDER_VERSION))
        }),
{
    record_karaoke_video_status_at_version(versions, kind, RENDER_VERSION)
}

/// Stamping a flavor makes the next render of it a no-op write, and never
/// touches the other flavor's version.
pub proof fn lemma_status_stamp_settles(versions: (u32, u32), kind: KaraokeVideoKind, version: u32)
    ensures
        version_of(stamped(versions, kind, version), kind) == version,
        kind == KaraokeVideoKind::Reel ==> stamped(versions, kind, version).1 == versions.1,
        kind == KaraokeVideoKind::Youtube ==> stamped(versions, kind, version).0 == versions.0,
{
}

/// A renderer version bump re-renders every cached video exactly once: a
/// render recorded at another version is never fresh, and once re-rendered
/// and stamped it is fresh again (while the transcript is not newer).
pub proof fn lemma_version_bump_rerenders_once(
    versions: (u32, u32),
    kind: KaraokeVideoKind,
    video_modified: Option<i128>,
    transcript_modified: Option<i128>,
    rerendered_at: i128,
    transcript_at: i128,
)
    requires
        version_of(versions, kind) != RENDER_VERSION,
        rerendered_at >= transcript_at,
    ensures
        !fresh(video_modified, transcript_modified, versions, kind),
        fresh(
            Some(rerendered_at),
            Some(transcript_at),
            stamped(versions, kind, RENDER_VERSION),
            kind,
        ),
{
}

/// Where the YouTube-background pipeline stands.
#[derive(Debug, Clone, Copy, PartialEq, Eq, Structural)]
pub enum YoutubeStage {
    /// The freshness of an existing render is being checked.
    CheckFresh,
    /// TheAudioDB is being asked for a music video.
    Lookup,
    /// The music video is being downloaded.
    Download,
    /// The karaoke video is being rendered over it.
    Render,
    /// The run has finished.
    Done,
}

/// One YouTube-background run for one song.
pub struct YoutubeKaraokeRun {
    pub file_hash: String,
    pub force: bool,
    pub stage: YoutubeStage,
    pub lookup_ms: Option<u64>,
    pub download_ms: Option<u64>,
}

/// What the outside work of the current stage reported. `total_ms` is the
/// time since the run began.
pub enum YoutubeEvent {
    Freshness { fresh: bool, total_ms: u64 },
    LookedUp { youtube_url: Option<String>, lookup_ms: u64, total_ms: u64 },
    Downloaded { error: Option<String>, download_ms: u64, total_ms: u64 },
    Rendered { error: Option<String>, render_ms: u64, total_ms: u64 },
}

/// What to do next.
pub enum YoutubeStep {
    /// Check whether the existing YouTube-background render is fresh.
    CheckFresh,
    /// Ask TheAudioDB for the song's music video.
    Lookup,
    /// Download the music video (unconditionally when `force`).
    Download { youtube_url: String, force: bool },
    /// Render the YouTube-background karaoke video, forced.
    Render,
    /// Record `run` in the history and answer `ready`; first stamp the
    /// YouTube flavor's status when `stamp_youtube` (only after a successful
    /// render: a failed one never invalidates a recorded version).
    Finish { run: KaraokeVideoRunRow, ready: KaraokeVideoReady, stamp_youtube: bool },
}

impl YoutubeKaraokeRun {
    /// Whether `event` is what the current stage waits for.
    pub open spec fn expects(&self, event: YoutubeEvent) -> bool {
        match self.stage {
            YoutubeStage::CheckFresh => event is Freshness,
            YoutubeStage::Lookup => event is LookedUp,
            YoutubeStage::Download => event is Downloaded,
            YoutubeStage::Render => event is Rendered,
            YoutubeStage::Done => false,
        }
    }

    /// Starts a run: a forced run skips the freshness check.
    pub fn new(file_hash: &str, force: bool) -> (r: (YoutubeKaraokeRun, YoutubeStep))
        ensures
            r.0.file_hash@ == file_hash@,
            r.0.force == force,
            r.0.lookup_ms is None,
            r.0.download_ms is None,
            force ==> r.0.stage == YoutubeStage::Lookup && r.1 is Lookup,
            !force ==> r.0.stage == YoutubeStage::CheckFresh && r.1 is CheckFresh,
    {
        let stage = if force {
            YoutubeStage::Lookup
        } else {
            YoutubeStage::CheckFresh
        };
        let run = YoutubeKaraokeRun {
            file_hash: file_hash.to_owned(),
            force,
            stage,
            lookup_ms: None,
            download_ms: None,
        };
        if force {
            (run, YoutubeStep::Lookup)
        } else {
            (run, YoutubeStep::CheckFresh)
        }
    }
}

/// The history row of a YouTube run.
pub open spec fn youtube_run(
    file_hash: Seq<char>,
    status: Seq<char>,
    error: Option<Seq<char>>,
    lookup_ms: Option<u64>,
    download_ms: Option<u64>,
    render_ms: Option<u64>,
    total_ms: u64,
) -> KaraokeVideoRunView {
    KaraokeVideoRunView {
        file_hash,
        kind: "youtube"@,
        status,
        error,
        lookup_ms,
        download_ms,
        render_ms,
        total_ms,
    }
}

fn youtube_row(
    file_hash: &str,
    status: &str,
    error: Option<String>,
    lookup_ms: Option<u64>,
    download_ms: Option<u64>,
    render_ms: Option<u64>,
    total_ms: u64,
) -> (r: KaraokeVideoRunRow)
    ensures
        r@ == youtube_run(
            file_hash@,
            status@,
            match error {
                Some(e) => Some(e@),
                None => None,
            },
            lookup_ms,
            download_ms,
            render_ms,
            total_ms,
        ),
{
    KaraokeVideoRunRow {
        file_hash: file_hash.to_owned(),
        kind: "youtube".to_owned(),
        status: status.to_owned(),
        error,
        lookup_ms,
        download_ms,
        render_ms,
        total_ms,
    }
}

/// Advances the YouTube-background pipeline by one step: skip when a fresh
/// render exists, stop when TheAudioDB has no music video, and otherwise
/// download, then render; every end is recorded in the run history.
pub fn ensure_youtube_karaoke_video(run: &mut YoutubeKaraokeRun, event: YoutubeEvent) -> (r:
    YoutubeStep)
    requires
        old(run).expects(event),
    ensures
        final(run).file_hash == old(run).file_hash,
        final(run).force == old(run).force,
        r matches YoutubeStep::Finish { ready, .. } ==> (!ready.music_video_found
            ==> ready.error is Some),
        ({
            let h = old(run).file_hash@;
            match event {
                YoutubeEvent::Freshness { fresh, total_ms } => if fresh {
                    &&& final(run).stage == YoutubeStage::Done
                    &&& r matches YoutubeStep::Finish { run: row, ready, stamp_youtube }
                        &&& !stamp_youtube
                    &&& row@ == youtube_run(h, "skipped_fresh"@, None, None, None, None, total_ms)
                    &&& ready@ == (KaraokeVideoReadyView {
                        file_hash: h,
                        music_video_found: true,
                        error: None,
                    })
                } else {
                    final(run).stage == YoutubeStage::Lookup && r is Lookup
                },
                YoutubeEvent::LookedUp { youtube_url, lookup_ms, total_ms } => match youtube_url {
                    None => {
                        &&& final(run).stage == YoutubeStage::Done
                        &&& r matches YoutubeStep::Finish { run: row, ready, stamp_youtube }
                        &&& !stamp_youtube
                        &&& row@ == youtube_run(
                            h,
                            "no_video_found"@,
                            None,
                            Some(lookup_ms),
                            None,
                            None,
                            total_ms,
                        )
                        &&& ready@ == (KaraokeVideoReadyView {
                            file_hash: h,
                            music_video_found: false,
                            error: Some("no official music video found for this song"@),
                        })
                    },
                    Some(url) => {
                        &&& final(run).stage == YoutubeStage::Download
                        &&& final(run).lookup_ms == Some(lookup_ms)
                        &&& r matches YoutubeStep::Download { youtube_url: u, force }
                        &&& u@ == url@
                        &&& force == old(run).force
                    },
                },
                YoutubeEvent::Downloaded { error, download_ms, total_ms } => match error {
                    Some(e) => {
                        &&& final(run).stage == YoutubeStage::Done
                        &&& r matches YoutubeStep::Finish { run: row, ready, stamp_youtube }
                        &&& !stamp_youtube
                        &&& row@ == youtube_run(
                            h,
                            "error"@,
                            Some(e@),
                            old(run).lookup_ms,
                            Some(download_ms),
                            None,
                            total_ms,
                        )
                        &&& ready@ == (KaraokeVideoReadyView {
                            file_hash: h,
                            music_video_found: true,
                            error: Some("failed to download music video: "@ + e@),
                        })
                    },
                    None => {
                        &&& final(run).stage == YoutubeStage::Render
                        &&& final(run).lookup_ms == old(run).lookup_ms
                        &&& final(run).download_ms == Some(download_ms)
                        &&& r is Render
                    },
                },
                YoutubeEvent::Rendered { error, render_ms, total_ms } => {
                    &&& final(run).stage == YoutubeStage::Done
                    &&& r matches YoutubeStep::Finish { run: row, ready, stamp_youtube }
                    &&& stamp_youtube == (error is None)
                    &&& match error {
                        None => {
                            &&& row@ == youtube_run(
                                h,
                                "rendered"@,
                                None,
                                old(run).lookup_ms,
                                old(run).download_ms,
                                Some(render_ms),
                                total_ms,
                            )
                            &&& ready@ == (KaraokeVideoReadyView {
                                file_hash: h,
                                music_video_found: true,
                                error: None,
                            })
                        },
                        Some(e) => {
                            &&& row@ == youtube_run(
                                h,
                                "error"@,
                                Some(e@),
                                old(run).lookup_ms,
                                old(run).download_ms,
                                Some(render_ms),
                                total_ms,
                            )
                            &&& ready@ == (KaraokeVideoReadyView {
                                file_hash: h,
                                music_video_found: true,
                                error: Some("failed to render karaoke video: "@ + e@),
                            })
                        },
                    }
                },
            }
        }),
{
    match event {
        YoutubeEvent::Freshness { fresh, total_ms } => {
            if fresh {
                run.stage = YoutubeStage::Done;
                let row = youtube_row(
                    run.file_hash.as_str(),
                    "skipped_fresh",
                    None,
                    None,
                    None,
                    None,
                    total_ms,
                );
                let ready = KaraokeVideoReady {
                    file_hash: run.file_hash.clone(),
                    music_video_found: true,
                    error: None,
                };
                YoutubeStep::Finish { run: row, ready, stamp_youtube: false }
            } else {
                run.stage = YoutubeStage::Lookup;
                YoutubeStep::Lookup
            }
        },
        YoutubeEvent::LookedUp { youtube_url, lookup_ms, total_ms } => match youtube_url {
            None => {
                run.stage = YoutubeStage::Done;
                let row = youtube_row(
                    run.file_hash.as_str(),
                    "no_video_found",
                    None,
                    Some(lookup_ms),
                    None,
                    None,
                    total_ms,
                );
                let ready = KaraokeVideoReady {
                    file_hash: run.file_hash.clone(),
                    music_video_found: false,
                    error: Some("no official music video found for this song".to_owned()),
                };
                YoutubeStep::Finish { run: row, ready, stamp_youtube: false }
            },
            Some(url) => {
                run.stage = YoutubeStage::Download;
                run.lookup_ms = Some(lookup_ms);
                YoutubeStep::Download { youtube_url: url, force: run.force }
            },
        },
        YoutubeEvent::Downloaded { error, download_ms, total_ms } => match error {
            Some(e) => {
                run.stage = YoutubeStage::Done;
                let message = "failed to download music video: ".to_owned().concat(e.as_str());
                let row = youtube_row(
                    run.file_hash.as_str(),
                    "error",
                    Some(e),
                    run.lookup_ms,
                    Some(download_ms),
                    None,
                    total_ms,
                );
                let ready = KaraokeVideoReady {
                    file_hash: run.file_hash.clone(),
                    music_video_found: true,
                    error: Some(message),
                };
                YoutubeStep::Finish { run: row, ready, stamp_youtube: false }
            },
            None => {
                run.stage = YoutubeStage::Render;
                run.download_ms = Some(download_ms);
                YoutubeStep::Render
            },
        },
        YoutubeEvent::Rendered { error, render_ms, total_ms } => {
            run.stage = YoutubeStage::Done;
            match error {
                None => {
                    let row = youtube_row(
                        run.file_hash.as_str(),
                        "rendered",
                        None,
                        run.lookup_ms,
                        run.download_ms,
                        Some(render_ms),
                        total_ms,
                    );
                    let ready = KaraokeVideoReady {
                        file_hash: run.file_hash.clone(),
                        music_video_found: true,
                        error: None,
                    };
                    YoutubeStep::Finish { run: row, ready, stamp_youtube: true }
                },
                Some(e) => {
                    let message = "failed to render karaoke video: ".to_owned().concat(e.as_str());
                    let row = youtube_row(
                        run.file_hash.as_str(),
                        "error",
                        Some(e),
                        run.lookup_ms,
                        run.download_ms,
                        Some(render_ms),
                        total_ms,
                    );
                    let ready = KaraokeVideoReady {
                        file_hash: run.file_hash.clone(),
                        music_video_found: true,
                        error: Some(message),
                    };
                    YoutubeStep::Finish { run: row, ready, stamp_youtube: false }
                },
            }
        },
    }
}

/// What a "get me a karaoke video" run clears first: when forced, both
/// cached renders (reel and YouTube background) are deleted and both
/// recorded versions set to `(0, 0)`; not forced, nothing.
pub open spec fn start_over_versions(force: bool) -> Option<(u32, u32)> {
    if force {
        Some((0u32, 0u32))
    } else {
        None
    }
}

/// A forced "get me a karaoke video" starts over before either attempt
/// (see `start_over_versions`): `Some(v)` asks to delete both cached
/// renders and record versions `v`. Without this, a flavor that this run
/// does not regenerate would keep looking fresh and could still be picked
/// as the best one.
pub fn best_karaoke_video_start_over(force: bool) -> (r: Option<(u32, u32)>)
    ensures
        r == start_over_versions(force),
{
    if force {
        Some((0, 0))
    } else {
        None
    }
}

/// After a forced start-over neither flavor counts as fresh, whatever the
/// file times, until it is rendered and stamped again.
pub proof fn lemma_start_over_leaves_nothing_fresh(
    video_modified: Option<i128>,
    transcript_modified: Option<i128>,
    kind: KaraokeVideoKind,
)
    ensures
        start_over_versions(true) matches Some(v) && !fresh(
            video_modified,
            transcript_modified,
            v,
            kind,
        ),
{
}

/// Whether the reel-background fallback has to run after a YouTube
/// attempt: only when that attempt ended with an error.
pub fn needs_reel_fallback(youtube_result: &KaraokeVideoReady) -> (r: bool)
    ensures
        r == youtube_result.error.is_some(),
{
    youtube_result.error.is_some()
}

/// The answer of the single "get me a karaoke video" action: the YouTube
/// attempt when it succeeded, else the reel fallback's outcome, with an
/// error only when both failed.
pub fn ensure_best_karaoke_video(youtube_result: KaraokeVideoReady, reel_fallback: Result<
    (),
    String,
>) -> (r: KaraokeVideoReady)
    ensures
        youtube_result.error is None ==> r@ == youtube_result@,
        youtube_result.error matches Some(ye) ==> {
            &&& r.file_hash@ == youtube_result.file_hash@
            &&& r.music_video_found == youtube_result.music_video_found
            &&& match reel_fallback {
                Ok(()) => r.error is None,
                Err(e) => r.error matches Some(m) && m@ == "no YouTube-background render ("@ + ye@
                    + ") and reel fallback also failed: "@ + e@,
            }
        },
{
    match youtube_result.error {
        None => youtube_result,
        Some(ye) => {
            let error = match reel_fallback {
                Ok(()) => None,
                Err(e) => Some(
                    "no YouTube-background render (".to_owned().concat(ye.as_str()).concat(
                        ") and reel fallback also failed: ",
                    ).concat(e.as_str()),
                ),
            };
            KaraokeVideoReady {
                file_hash: youtube_result.file_hash,
                music_video_found: youtube_result.music_video_found,
                error,
            }
        },
    }
}

/// Whether a render is needed: always when forced, else only when the
/// cached one is not fresh.
pub fn render_needed(force: bool, fresh: bool) -> (r: bool)
    ensures
        r == (force || !fresh),
{
    force || !fresh
}

/// How a reel render went: skipped because fresh, or rendered in
/// `render_ms`.
pub struct RenderOutcome {
    pub skipped_fresh: bool,
    pub render_ms: Option<u64>,
}

/// The history row of a reel-background render, and whether the status
/// table is to be stamped (only after a success, skipped or rendered).
pub fn ensure_karaoke_video(file_hash: &str, outcome: &Result<RenderOutcome, String>, total_ms: u64) -> (r: (
    KaraokeVideoRunRow,
    bool,
))
    ensures
        r.1 == outcome.is_ok(),
        r.0@.file_hash == file_hash@,
        r.0@.kind == "reel"@,
        r.0@.lookup_ms is None,
        r.0@.download_ms is None,
        r.0@.total_ms == total_ms,
        match outcome {
            Ok(o) => {
                &&& r.0@.status == (if o.skipped_fresh {
                    "skipped_fresh"@
                } else {
                    "rendered"@
                })
                &&& r.0@.error is None
                &&& r.0@.render_ms == o.render_ms
            },
            Err(e) => {
                &&& r.0@.status == "error"@
                &&& r.0@.error == Some(e@)
                &&& r.0@.render_ms is None
            },
        },
{
    match outcome {
        Ok(o) => {
            let status = if o.skipped_fresh {
                "skipped_fresh"
            } else {
                "rendered"
            };
            (
                KaraokeVideoRunRow {
                    file_hash: file_hash.to_owned(),
                    kind: "reel".to_owned(),
                    status: status.to_owned(),
                    error: None,
                    lookup_ms: None,
                    download_ms: None,
                    render_ms: o.render_ms,
                    total_ms,
                },
                true,
            )
        },
        Err(e) => (
            KaraokeVideoRunRow {
                file_hash: file_hash.to_owned(),
                kind: "reel".to_owned(),
                status: "error".to_owned(),
                error: Some(e.clone()),
                lookup_ms: None,
                download_ms: None,
                render_ms: None,
                total_ms,
            },
            false,
        ),
    }
}

/// How the downloaded YouTube video lines up with the song's audio.
pub enum SyncCheck {
    /// The sync detection itself failed with this message.
    Failed(String),
    /// No confident match, or one that would need padding to line up.
    Unusable,
    /// A confident, non-negative offset was found.
    Usable,
}

/// Whether a YouTube-background render can go ahead: it needs the video
/// downloaded and confidently synced; never falls back to the reel pool.
pub fn ensure_youtube_background_karaoke_video(file_hash: &str, source_exists: bool, sync: SyncCheck) -> (r:
    Result<(), String>)
    ensures
        !source_exists ==> (r matches Err(m) && m@ == "no downloaded YouTube video for "@ + file_hash@
            + " -- download one first"@),
        source_exists ==> match sync {
            SyncCheck::Failed(e) => r matches Err(m) && m@ == e@,
            SyncCheck::Unusable => r matches Err(m) && m@ == "downloaded YouTube video for "@
                + file_hash@
                + " couldn't be confidently synced to the song's audio (or would need padding, not trimming, to line up)"@,
            SyncCheck::Usable => r is Ok,
        },
{
    if !source_exists {
        return Err(
            "no downloaded YouTube video for ".to_owned().concat(file_hash).concat(
                " -- download one first",
            ),
        );
    }
    match sync {
        SyncCheck::Failed(e) => Err(e),
        SyncCheck::Unusable => Err(
            "downloaded YouTube video for ".to_owned().concat(file_hash).concat(
                " couldn't be confidently synced to the song's audio (or would need padding, not trimming, to line up)",
            ),
        ),
        SyncCheck::Usable => Ok(()),
    }
}

/// Which flavor to show: a fresh YouTube-background render when there is
/// one, else the reel-background one (rendered now if missing or stale).
pub fn best_karaoke_video_path(has_fresh_youtube: bool) -> (r: KaraokeVideoKind)
    ensures
        r == (if has_fresh_youtube {
            KaraokeVideoKind::Youtube
        } else {
            KaraokeVideoKind::Reel
        }),
{
    if has_fresh_youtube {
        KaraokeVideoKind::Youtube
    } else {
        KaraokeVideoKind::Reel
    }
}

/// What one song of a bulk sweep does.
#[derive(Debug, Clone, Copy, PartialEq, Eq, Structural)]
pub enum SweepAction {
    /// Nothing: a fresh YouTube-background render already exists.
    Skip,
    /// Render the reel-background video (unconditionally when `force`).
    RenderReel { force: bool },
    /// Run the YouTube pipeline (forced when `force`).
    FetchYoutube { force: bool },
}

/// The per-song action of the bulk "best karaoke video" sweep of `kind`:
/// the reel sweep skips songs that already have a fresh YouTube render.
pub fn best_karaoke_video_all(kind: KaraokeVideoKind, has_fresh_youtube: bool) -> (r: SweepAction)
    ensures
        r == (match kind {
            KaraokeVideoKind::Reel => if has_fresh_youtube {
                SweepAction::Skip
            } else {
                SweepAction::RenderReel { force: false }
            },
            KaraokeVideoKind::Youtube => SweepAction::FetchYoutube { force: false },
        }),
{
    match kind {
        KaraokeVideoKind::Reel => if has_fresh_youtube {
            SweepAction::Skip
        } else {
            SweepAction::RenderReel { force: false }
        },
        KaraokeVideoKind::Youtube => SweepAction::FetchYoutube { force: false },
    }
}

/// The per-song action of the forced bulk sweep of `kind`: each sweep
/// regenerates its own flavor and never skips.
pub fn force_best_karaoke_video_all(kind: KaraokeVideoKind) -> (r: SweepAction)
    ensures
        r == (match kind {
            KaraokeVideoKind::Reel => SweepAction::RenderReel { force: true },
            KaraokeVideoKind::Youtube => SweepAction::FetchYoutube { force: true },
        }),
{
    match kind {
        KaraokeVideoKind::Reel => SweepAction::RenderReel { force: true },
        KaraokeVideoKind::Youtube => SweepAction::FetchYoutube { force: true },
    }
}

/// A YouTube sweep step succeeded exactly when its answer has no error.
pub fn sweep_result(ready: KaraokeVideoReady) -> (r: Result<(), String>)
    ensures
        match ready.error {
            None => r is Ok,
            Some(e) => r matches Err(m) && m@ == e@,
        },
{
    match ready.error {
        None => Ok(()),
        Some(e) => Err(e),
    }
}

/// `"{title} — {artist} ({file_hash})"` for progress lines, or the bare
/// hash when the song can't be loaded.
pub fn song_label(file_hash: &str, song: Option<(String, String)>) -> (r: String)
    ensures
        match song {
            Some((title, artist)) => r@ == title@ + " — "@ + artist@ + " ("@ + file_hash@ + ")"@,
            None => r@ == file_hash@,
        },
{
    match song {
        Some((title, artist)) => title.concat(" — ").concat(artist.as_str()).concat(" (").concat(
            file_hash,
        ).concat(")"),
        None => file_hash.to_owned(),
    }
}

/// Report of a backfill over the cached karaoke videos.
pub struct KaraokeVideoBackfillReport {
    pub reel_files_found: usize,
    pub youtube_files_found: usize,
    pub reel_backfilled: usize,
    pub youtube_backfilled: usize,
    /// Cached videos whose song is gone: left alone, counted.
    pub orphaned: usize,
}

impl KaraokeVideoBackfillReport {
    /// A report with every count at zero.
    pub fn new() -> (r: KaraokeVideoBackfillReport)
        ensures
            r.reel_files_found == 0,
            r.youtube_files_found == 0,
            r.reel_backfilled == 0,
            r.youtube_backfilled == 0,
            r.orphaned == 0,
    {
        KaraokeVideoBackfillReport {
            reel_files_found: 0,
            youtube_files_found: 0,
            reel_backfilled: 0,
            youtube_backfilled: 0,
            orphaned: 0,
        }
    }
}

/// The song hash and flavor of a cached video file named `{hash}.mp4`
/// (reel) or `{hash}_youtube.mp4`; `None` for any other name.
pub fn cached_video_name(name: &str) -> (r: Option<(String, KaraokeVideoKind)>)
    ensures
        !has_suffix(name@, ".mp4"@) ==> r is None,
        has_suffix(name@, ".mp4"@) ==> {
            let stem = name@.subrange(0, name@.len() - 4);
            r matches Some((h, k)) && if has_suffix(stem, "_youtube"@) {
                h@ == stem.subrange(0, stem.len() - 8) && k == KaraokeVideoKind::Youtube
            } else {
                h@ == stem && k == KaraokeVideoKind::Reel
            }
        },
{
    proof {
        reveal_strlit(".mp4");
        reveal_strlit("_youtube");
    }
    match strip_suffix(name, ".mp4") {
        None => None,
        Some(stem) => match strip_suffix(stem.as_str(), "_youtube") {
            Some(hash) => Some((hash, KaraokeVideoKind::Youtube)),
            None => Some((stem, KaraokeVideoKind::Reel)),
        },
    }
}

/// What loading the song of a cached video gave.
#[derive(Debug, Clone, Copy, PartialEq, Eq, Structural)]
pub enum SongLookup {
    Found,
    Missing,
    Failed,
}

/// Counts one cached file of `kind` and decides whether to stamp it: not
/// when that flavor is already recorded (version non-zero); otherwise
/// stamped at version 1 when its song exists (such a file predates
/// per-version tracking), counted orphaned when the song is gone, left
/// alone when the lookup failed. Returns whether to stamp it.
pub fn backfill_entry(
    report: &mut KaraokeVideoBackfillReport,
    kind: KaraokeVideoKind,
    versions: (u32, u32),
    song: SongLookup,
) -> (stamp: bool)
    requires
        old(report).reel_files_found < usize::MAX,
        old(report).youtube_files_found < usize::MAX,
        old(report).reel_backfilled < usize::MAX,
        old(report).youtube_backfilled < usize::MAX,
        old(report).orphaned < usize::MAX,
    ensures
        final(report).reel_files_found == old(report).reel_files_found + (if kind
            == KaraokeVideoKind::Reel {
            1int
        } else {
            0int
        }),
        final(report).youtube_files_found == old(report).youtube_files_found + (if kind
            == KaraokeVideoKind::Youtube {
            1int
        } else {
            0int
        }),
        stamp == (version_of(versions, kind) == 0 && song is Found),
        final(report).reel_backfilled == old(report).reel_backfilled + (if stamp && kind
            == KaraokeVideoKind::Reel {
            1int
        } else {
            0int
        }),
        final(report).youtube_backfilled == old(report).youtube_backfilled + (if stamp && kind
            == KaraokeVideoKind::Youtube {
            1int
        } else {
            0int
        }),
        final(report).orphaned == old(report).orphaned + (if version_of(versions, kind) == 0
            && song is Missing {
            1int
        } else {
            0int
        }),
{
    match kind {
        KaraokeVideoKind::Reel => report.reel_files_found = report.reel_files_found + 1,
        KaraokeVideoKind::Youtube => report.youtube_files_found = report.youtube_files_found + 1,
    }
    let already_recorded = match kind {
        KaraokeVideoKind::Reel => versions.0 != 0,
        KaraokeVideoKind::Youtube => versions.1 != 0,
    };
    if already_recorded {
        return false;
    }
    match song {
        SongLookup::Found => {
            match kind {
                KaraokeVideoKind::Reel => report.reel_backfilled = report.reel_backfilled + 1,
                KaraokeVideoKind::Youtube => report.youtube_backfilled = report.youtube_backfilled
                    + 1,
            }
            true
        },
        SongLookup::Missing => {
            report.orphaned = report.orphaned + 1;
            false
        },
        SongLookup::Failed => false,
    }
}

/// The backfill is idempotent: a file it stamped (at version 1) is
/// already recorded the next time round, so a second run neither stamps it
/// again nor counts it as backfilled or orphaned.
pub proof fn lemma_backfill_idempotent(versions: (u32, u32), kind: KaraokeVideoKind)
    ensures
        version_of(stamped(versions, kind, 1), kind) != 0,
{
}

/// One cached video file as the backfill sees it: its flavor, the version
/// recorded for that flavor of its song (0 when none), and whether its
/// song was found.
#[derive(Debug, Clone, Copy, PartialEq, Eq, Structural)]
pub struct BackfillFile {
    pub kind: KaraokeVideoKind,
    pub recorded_version: u32,
    pub song: SongLookup,
}

/// The backfill stamps the file (at version 1).
pub open spec fn backfill_stamps(f: BackfillFile) -> bool {
    f.recorded_version == 0 && f.song is Found
}

/// The counts a backfill over `files` reports: `(reel files, YouTube files,
/// reel backfilled, YouTube backfilled, orphaned)`.
pub open spec fn backfill_counts(files: Seq<BackfillFile>) -> (int, int, int, int, int)
    decreases files.len(),
{
    if files.len() == 0 {
        (0, 0, 0, 0, 0)
    } else {
        let (a, b, c, d, e) = backfill_counts(files.drop_last());
        let f = files.last();
        let reel = f.kind == KaraokeVideoKind::Reel;
        (
            a + if reel { 1int } else { 0int },
            b + if reel { 0int } else { 1int },
            c + if backfill_stamps(f) && reel { 1int } else { 0int },
            d + if backfill_stamps(f) && !reel { 1int } else { 0int },
            e + if f.recorded_version == 0 && f.song is Missing { 1int } else { 0int },
        )
    }
}

/// The files as a later run sees them when nothing changed but the stamps
/// the earlier run wrote.
pub open spec fn after_backfill(files: Seq<BackfillFile>) -> Seq<BackfillFile> {
    files.map_values(
        |f: BackfillFile|
            if backfill_stamps(f) {
                BackfillFile { recorded_version: 1, ..f }
            } else {
                f
            },
    )
}

proof fn lemma_backfill_counts_bounds(files: Seq<BackfillFile>)
    ensures
        ({
            let (a, b, c, d, e) = backfill_counts(files);
            &&& 0 <= c <= a
            &&& 0 <= d <= b
            &&& 0 <= e
            &&& a + b == files.len()
        }),
    decreases files.len(),
{
    if files.len() > 0 {
        lemma_backfill_counts_bounds(files.drop_last());
    }
}

/// Backfilling twice backfills nothing the second time: when nothing but
/// the first run's stamps changed in between, the second run finds the
/// same files of each flavor and backfills none; and in any run no more
/// files of a flavor are backfilled than found.
pub proof fn lemma_backfill_run_idempotent(files: Seq<BackfillFile>)
    ensures
        ({
            let (a1, b1, c1, d1, e1) = backfill_counts(files);
            let (a2, b2, c2, d2, e2) = backfill_counts(after_backfill(files));
            &&& a2 == a1
            &&& b2 == b1
            &&& c2 == 0
            &&& d2 == 0
            &&& c1 <= a1
            &&& d1 <= b1
        }),
    decreases files.len(),
{
    lemma_backfill_counts_bounds(files);
    if files.len() > 0 {
        lemma_backfill_run_idempotent(files.drop_last());
        assert(after_backfill(files).drop_last() =~= after_backfill(files.drop_last()));
        assert(after_backfill(files).last() == after_backfill(files)[files.len() - 1]);
    }
}

/// A backfill over `files`, in order: the report and, per file, whether to
/// stamp it (see `backfill_entry`).
pub fn backfill_run(files: &Vec<BackfillFile>) -> (r: (KaraokeVideoBackfillReport, Vec<bool>))
    requires
        files@.len() < usize::MAX,
    ensures
        ({
            let (a, b, c, d, e) = backfill_counts(files@);
            &&& r.0.reel_files_found == a
            &&& r.0.youtube_files_found == b
            &&& r.0.reel_backfilled == c
            &&& r.0.youtube_backfilled == d
            &&& r.0.orphaned == e
        }),
        r.1@.len() == files@.len(),
        forall|i: int| 0 <= i < files@.len() ==> r.1@[i] == backfill_stamps(#[trigger] files@[i]),
{
    let mut report = KaraokeVideoBackfillReport::new();
    let mut stamps: Vec<bool> = Vec::new();
    let mut i: usize = 0;
    while i < files.len()
        invariant
            i <= files@.len(),
            files@.len() < usize::MAX,
            ({
                let (a, b, c, d, e) = backfill_counts(files@.subrange(0, i as int));
                &&& report.reel_files_found == a
                &&& report.youtube_files_found == b
                &&& report.reel_backfilled == c
                &&& report.youtube_backfilled == d
                &&& report.orphaned == e
            }),
            stamps@.len() == i,
            forall|j: int| 0 <= j < i ==> stamps@[j] == backfill_stamps(#[trigger] files@[j]),
        decreases files@.len() - i,
    {
        let ghost pre = files@.subrange(0, i as int);
        proof {
            lemma_backfill_counts_bounds(pre);
            lemma_backfill_orphans_bound(pre);
            assert(files@.subrange(0, i + 1).drop_last() =~= pre);
            assert(files@.subrange(0, i + 1).last() == files@[i as int]);
        }
        let f = files[i];
        let stamp = backfill_entry(
            &mut report,
            f.kind,
            (f.recorded_version, f.recorded_version),
            f.song,
        );
        stamps.push(stamp);
        i = i + 1;
    }
    assert(files@.subrange(0, files@.len() as int) =~= files@);
    (report, stamps)
}

proof fn lemma_backfill_orphans_bound(files: Seq<BackfillFile>)
    ensures
        backfill_counts(files).4 <= files.len(),
    decreases files.len(),
{
    if files.len() > 0 {
        lemma_backfill_orphans_bound(files.drop_last());
    }
}

} // verus!
