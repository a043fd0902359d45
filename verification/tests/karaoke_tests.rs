use app_core::karaoke::{
    backfill_entry, backfill_run, best_karaoke_video_start_over, BackfillFile, best_karaoke_video_all, best_karaoke_video_path, cached_video_name,
    ensure_best_karaoke_video, ensure_karaoke_video, ensure_youtube_background_karaoke_video,
    ensure_youtube_karaoke_video, force_best_karaoke_video_all, has_fresh_youtube_video, is_fresh,
    needs_reel_fallback, record_karaoke_video_status, record_karaoke_video_status_at_version,
    render_needed, song_label, sweep_result, KaraokeVideoBackfillReport, KaraokeVideoKind,
    KaraokeVideoReady, RenderOutcome, SongLookup, SweepAction, SyncCheck, YoutubeEvent,
    YoutubeKaraokeRun, YoutubeStep,
};
use app_core::RENDER_VERSION;

#[test]
fn render_is_fresh_only_when_newer_and_current_version() {
    let current = (RENDER_VERSION, RENDER_VERSION);
    assert!(is_fresh(Some(10), Some(10), current, KaraokeVideoKind::Reel));
    assert!(is_fresh(Some(11), Some(10), current, KaraokeVideoKind::Youtube));
    assert!(!is_fresh(Some(9), Some(10), current, KaraokeVideoKind::Reel));
    assert!(!is_fresh(None, Some(10), current, KaraokeVideoKind::Reel));
    assert!(!is_fresh(Some(10), None, current, KaraokeVideoKind::Reel));
    assert!(!is_fresh(Some(11), Some(10), (RENDER_VERSION - 1, RENDER_VERSION), KaraokeVideoKind::Reel));
    assert!(is_fresh(Some(11), Some(10), (RENDER_VERSION - 1, RENDER_VERSION), KaraokeVideoKind::Youtube));
}

#[test]
fn fresh_youtube_render_needs_the_file() {
    let v = (0, RENDER_VERSION);
    assert!(has_fresh_youtube_video(true, Some(5), Some(1), v));
    assert!(!has_fresh_youtube_video(false, Some(5), Some(1), v));
}

#[test]
fn status_is_written_only_when_the_version_changes() {
    assert_eq!(record_karaoke_video_status((0, 2), KaraokeVideoKind::Reel), Some((RENDER_VERSION, 2)));
    assert_eq!(record_karaoke_video_status((1, 0), KaraokeVideoKind::Youtube), Some((1, RENDER_VERSION)));
    assert_eq!(record_karaoke_video_status((RENDER_VERSION, 0), KaraokeVideoKind::Reel), None);
    assert_eq!(record_karaoke_video_status_at_version((1, 0), KaraokeVideoKind::Reel, 1), None);
}

#[test]
fn stamped_render_becomes_a_no_op() {
    let stamped = record_karaoke_video_status((0, 0), KaraokeVideoKind::Reel).unwrap();
    assert_eq!(record_karaoke_video_status(stamped, KaraokeVideoKind::Reel), None);
    assert!(is_fresh(Some(2), Some(1), stamped, KaraokeVideoKind::Reel));
}

fn finish(step: YoutubeStep) -> (app_core::karaoke::KaraokeVideoRunRow, KaraokeVideoReady, bool) {
    match step {
        YoutubeStep::Finish { run, ready, stamp_youtube } => (run, ready, stamp_youtube),
        _ => panic!("expected the run to finish"),
    }
}

#[test]
fn fresh_youtube_render_is_skipped() {
    let (mut run, step) = YoutubeKaraokeRun::new("h1", false);
    assert!(matches!(step, YoutubeStep::CheckFresh));
    let (row, ready, stamp) = finish(ensure_youtube_karaoke_video(&mut run, YoutubeEvent::Freshness { fresh: true, total_ms: 3 }));
    assert!(!stamp);
    assert_eq!(row.status, "skipped_fresh");
    assert_eq!(row.kind, "youtube");
    assert_eq!(row.total_ms, 3);
    assert_eq!(row.lookup_ms, None);
    assert!(ready.music_video_found);
    assert_eq!(ready.error, None);
}

#[test]
fn no_music_video_stops_before_rendering() {
    let (mut run, step) = YoutubeKaraokeRun::new("h1", true);
    assert!(matches!(step, YoutubeStep::Lookup));
    let (row, ready, stamp) = finish(ensure_youtube_karaoke_video(
        &mut run,
        YoutubeEvent::LookedUp { youtube_url: None, lookup_ms: 40, total_ms: 41 },
    ));
    assert!(!stamp);
    assert_eq!(row.status, "no_video_found");
    assert_eq!(row.lookup_ms, Some(40));
    assert!(!ready.music_video_found);
    assert_eq!(ready.error, Some("no official music video found for this song".to_string()));
}

#[test]
fn download_failure_is_recorded() {
    let (mut run, _) = YoutubeKaraokeRun::new("h1", false);
    ensure_youtube_karaoke_video(&mut run, YoutubeEvent::Freshness { fresh: false, total_ms: 1 });
    let step = ensure_youtube_karaoke_video(
        &mut run,
        YoutubeEvent::LookedUp { youtube_url: Some("https://youtu.be/x".into()), lookup_ms: 5, total_ms: 6 },
    );
    assert!(matches!(step, YoutubeStep::Download { ref youtube_url, force: false } if youtube_url == "https://youtu.be/x"));
    let (row, ready, stamp) = finish(ensure_youtube_karaoke_video(
        &mut run,
        YoutubeEvent::Downloaded { error: Some("yt-dlp exited 1".into()), download_ms: 7, total_ms: 13 },
    ));
    assert!(!stamp);
    assert_eq!(row.status, "error");
    assert_eq!(row.error, Some("yt-dlp exited 1".to_string()));
    assert_eq!((row.lookup_ms, row.download_ms, row.render_ms), (Some(5), Some(7), None));
    assert!(ready.music_video_found);
    assert_eq!(ready.error, Some("failed to download music video: yt-dlp exited 1".to_string()));
}

#[test]
fn successful_youtube_render_is_recorded_with_all_stages() {
    let (mut run, _) = YoutubeKaraokeRun::new("h1", true);
    ensure_youtube_karaoke_video(&mut run, YoutubeEvent::LookedUp { youtube_url: Some("u".into()), lookup_ms: 1, total_ms: 1 });
    let step = ensure_youtube_karaoke_video(&mut run, YoutubeEvent::Downloaded { error: None, download_ms: 2, total_ms: 3 });
    assert!(matches!(step, YoutubeStep::Render));
    let (row, ready, stamp) = finish(ensure_youtube_karaoke_video(&mut run, YoutubeEvent::Rendered { error: None, render_ms: 4, total_ms: 7 }));
    assert!(stamp);
    assert_eq!(row.status, "rendered");
    assert_eq!((row.lookup_ms, row.download_ms, row.render_ms, row.total_ms), (Some(1), Some(2), Some(4), 7));
    assert_eq!(row.file_hash, "h1");
    assert_eq!(ready.error, None);
}

#[test]
fn failed_youtube_render_explains_why() {
    let (mut run, _) = YoutubeKaraokeRun::new("h1", true);
    ensure_youtube_karaoke_video(&mut run, YoutubeEvent::LookedUp { youtube_url: Some("u".into()), lookup_ms: 1, total_ms: 1 });
    ensure_youtube_karaoke_video(&mut run, YoutubeEvent::Downloaded { error: None, download_ms: 2, total_ms: 3 });
    let (row, ready, stamp) = finish(ensure_youtube_karaoke_video(&mut run, YoutubeEvent::Rendered { error: Some("not synced".into()), render_ms: 4, total_ms: 7 }));
    assert!(!stamp);
    assert_eq!(row.status, "error");
    assert_eq!(ready.error, Some("failed to render karaoke video: not synced".to_string()));
}

fn ready(found: bool, error: Option<&str>) -> KaraokeVideoReady {
    KaraokeVideoReady { file_hash: "h1".into(), music_video_found: found, error: error.map(str::to_string) }
}

#[test]
fn best_video_falls_back_to_reel() {
    assert!(!needs_reel_fallback(&ready(true, None)));
    assert!(needs_reel_fallback(&ready(false, Some("e"))));
    let r = ensure_best_karaoke_video(ready(true, None), Err("ignored".into()));
    assert_eq!(r.error, None);
    let r = ensure_best_karaoke_video(ready(false, Some("no video")), Ok(()));
    assert!(!r.music_video_found);
    assert_eq!(r.error, None);
    let r = ensure_best_karaoke_video(ready(true, Some("no sync")), Err("ffmpeg failed".into()));
    assert!(r.music_video_found);
    assert_eq!(
        r.error,
        Some("no YouTube-background render (no sync) and reel fallback also failed: ffmpeg failed".to_string())
    );
}

#[test]
fn reel_runs_are_recorded() {
    let (row, stamp) = ensure_karaoke_video("h1", &Ok(RenderOutcome { skipped_fresh: true, render_ms: None }), 2);
    assert!(stamp);
    assert_eq!((row.kind.as_str(), row.status.as_str(), row.render_ms), ("reel", "skipped_fresh", None));
    let (row, _) = ensure_karaoke_video("h1", &Ok(RenderOutcome { skipped_fresh: false, render_ms: Some(900) }), 950);
    assert_eq!((row.status.as_str(), row.render_ms, row.total_ms), ("rendered", Some(900), 950));
    let (row, stamp) = ensure_karaoke_video("h1", &Err("no transcript".into()), 5);
    assert!(!stamp);
    assert_eq!(row.status, "error");
    assert_eq!(row.error, Some("no transcript".to_string()));
}

#[test]
fn render_is_needed_when_forced_or_stale() {
    assert!(render_needed(true, true));
    assert!(render_needed(false, false));
    assert!(!render_needed(false, true));
}

#[test]
fn youtube_background_needs_a_synced_download() {
    assert_eq!(
        ensure_youtube_background_karaoke_video("h1", false, SyncCheck::Usable),
        Err("no downloaded YouTube video for h1 -- download one first".to_string())
    );
    assert_eq!(
        ensure_youtube_background_karaoke_video("h1", true, SyncCheck::Unusable),
        Err("downloaded YouTube video for h1 couldn't be confidently synced to the song's audio (or would need padding, not trimming, to line up)".to_string())
    );
    assert_eq!(
        ensure_youtube_background_karaoke_video("h1", true, SyncCheck::Failed("decode error".into())),
        Err("decode error".to_string())
    );
    assert_eq!(ensure_youtube_background_karaoke_video("h1", true, SyncCheck::Usable), Ok(()));
}

#[test]
fn best_path_prefers_fresh_youtube_render() {
    assert_eq!(best_karaoke_video_path(true), KaraokeVideoKind::Youtube);
    assert_eq!(best_karaoke_video_path(false), KaraokeVideoKind::Reel);
}

#[test]
fn bulk_sweeps() {
    assert_eq!(best_karaoke_video_all(KaraokeVideoKind::Reel, true), SweepAction::Skip);
    assert_eq!(best_karaoke_video_all(KaraokeVideoKind::Reel, false), SweepAction::RenderReel { force: false });
    assert_eq!(best_karaoke_video_all(KaraokeVideoKind::Youtube, true), SweepAction::FetchYoutube { force: false });
    assert_eq!(force_best_karaoke_video_all(KaraokeVideoKind::Reel), SweepAction::RenderReel { force: true });
    assert_eq!(force_best_karaoke_video_all(KaraokeVideoKind::Youtube), SweepAction::FetchYoutube { force: true });
    assert_eq!(sweep_result(ready(true, None)), Ok(()));
    assert_eq!(sweep_result(ready(true, Some("x"))), Err("x".to_string()));
}

#[test]
fn song_label_names_the_song() {
    assert_eq!(
        song_label("h1", Some(("Dancing Queen".into(), "ABBA".into()))),
        "Dancing Queen — ABBA (h1)"
    );
    assert_eq!(song_label("h1", None), "h1");
}

#[test]
fn cached_video_names() {
    let (h, k) = cached_video_name("abc.mp4").unwrap();
    assert_eq!((h.as_str(), k), ("abc", KaraokeVideoKind::Reel));
    let (h, k) = cached_video_name("abc_youtube.mp4").unwrap();
    assert_eq!((h.as_str(), k), ("abc", KaraokeVideoKind::Youtube));
    assert!(cached_video_name("abc.txt").is_none());
    assert!(cached_video_name("abc.mp4.part").is_none());
    let (h, k) = cached_video_name("_youtube.mp4").unwrap();
    assert_eq!((h.as_str(), k), ("", KaraokeVideoKind::Youtube));
}

#[test]
fn backfill_counts_and_is_idempotent() {
    let mut report = KaraokeVideoBackfillReport::new();
    assert!(backfill_entry(&mut report, KaraokeVideoKind::Reel, (0, 0), SongLookup::Found));
    assert!(!backfill_entry(&mut report, KaraokeVideoKind::Reel, (1, 0), SongLookup::Found));
    assert!(!backfill_entry(&mut report, KaraokeVideoKind::Youtube, (1, 0), SongLookup::Missing));
    assert!(!backfill_entry(&mut report, KaraokeVideoKind::Youtube, (0, 0), SongLookup::Failed));
    assert_eq!(report.reel_files_found, 2);
    assert_eq!(report.youtube_files_found, 2);
    assert_eq!(report.reel_backfilled, 1);
    assert_eq!(report.youtube_backfilled, 0);
    assert_eq!(report.orphaned, 1);
    let stamped = record_karaoke_video_status_at_version((0, 0), KaraokeVideoKind::Reel, 1).unwrap();
    assert!(!backfill_entry(&mut report, KaraokeVideoKind::Reel, stamped, SongLookup::Found));
}

#[test]
fn a_second_backfill_run_backfills_nothing() {
    let file = |kind, recorded_version, song| BackfillFile { kind, recorded_version, song };
    let files = vec![
        file(KaraokeVideoKind::Reel, 0, SongLookup::Found),
        file(KaraokeVideoKind::Youtube, 0, SongLookup::Found),
        file(KaraokeVideoKind::Reel, 3, SongLookup::Found),
        file(KaraokeVideoKind::Reel, 0, SongLookup::Missing),
        file(KaraokeVideoKind::Youtube, 0, SongLookup::Failed),
    ];
    let (first, stamps) = backfill_run(&files);
    assert_eq!(stamps, vec![true, true, false, false, false]);
    assert_eq!(
        (first.reel_files_found, first.youtube_files_found, first.reel_backfilled, first.youtube_backfilled, first.orphaned),
        (3, 2, 1, 1, 1)
    );
    let again: Vec<BackfillFile> = files
        .iter()
        .zip(&stamps)
        .map(|(f, s)| if *s { BackfillFile { recorded_version: 1, ..*f } } else { *f })
        .collect();
    let (second, stamps2) = backfill_run(&again);
    assert!(stamps2.iter().all(|s| !s));
    assert_eq!((second.reel_files_found, second.youtube_files_found), (3, 2));
    assert_eq!((second.reel_backfilled, second.youtube_backfilled), (0, 0));
}

#[test]
fn a_forced_best_video_starts_over() {
    assert_eq!(best_karaoke_video_start_over(true), Some((0, 0)));
    assert_eq!(best_karaoke_video_start_over(false), None);
    let (reel, youtube) = best_karaoke_video_start_over(true).unwrap();
    assert!(!is_fresh(Some(9), Some(1), (reel, youtube), KaraokeVideoKind::Reel));
    assert!(!is_fresh(Some(9), Some(1), (reel, youtube), KaraokeVideoKind::Youtube));
}
