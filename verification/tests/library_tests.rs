use app_core::analysis_queue::{AnalysisQueue, AnalysisQueueTable, QueuedStatus};
use app_core::video_queue::{mark_queued_many, VideoQueueKind, VideoQueueTable};
use app_core::audiodb::{find_music_video_for_hash, music_video_search_url, pick_music_video, AudioDbTrack};
use app_core::library::{bump_scan_generation, record_timing, scan_generation_is_current, startup, ScanGeneration};

#[test]
fn bumping_retires_older_scans() {
    let mut g = ScanGeneration::new();
    let first = bump_scan_generation(&mut g);
    assert_eq!(first, 1);
    assert!(scan_generation_is_current(&g, first));
    let second = bump_scan_generation(&mut g);
    assert!(!scan_generation_is_current(&g, first));
    assert!(scan_generation_is_current(&g, second));
}

#[test]
fn startup_restores_the_stored_queue_when_asked() {
    let rows = vec![QueuedStatus::Queued.to_row("a"), QueuedStatus::Analyzing(3).to_row("b")];
    let stored = AnalysisQueue::load(&rows);
    let mut table = AnalysisQueueTable::new();
    table.save_rows(&rows);
    let mut videos = VideoQueueTable::new();
    mark_queued_many(&mut videos, VideoQueueKind::Reel, &vec!["a".to_string()], "t");
    let mut restored = startup(&stored, &mut table, &mut videos, true);
    restored.sort();
    assert_eq!(restored, vec!["a".to_string(), "b".to_string()]);
    assert!(table.rows.is_empty());
    assert!(videos.rows.is_empty());
    table.save_rows(&rows);
    assert!(startup(&stored, &mut table, &mut videos, false).is_empty());
    assert!(table.rows.is_empty());
}

#[test]
fn timings_are_recorded_only_when_tracked() {
    assert!(record_timing(false, "h", "http://p", true, None, 5).is_none());
    let row = record_timing(true, "h", "http://p", false, Some(3), 5).unwrap();
    assert_eq!(row.file_hash, "h");
    assert_eq!(row.peer_url, "http://p");
    assert!(!row.already_analyzed_on_peer);
    assert_eq!(row.poll_attempts, Some(3));
    assert_eq!(row.total_ms, 5);
}

#[test]
fn music_video_lookup_needs_title_and_known_artist() {
    assert!(music_video_search_url("", "ABBA").is_none());
    assert!(music_video_search_url("SOS", "").is_none());
    assert!(music_video_search_url("SOS", "Unknown Artist").is_none());
    assert!(find_music_video_for_hash(None).is_none());
    assert_eq!(
        find_music_video_for_hash(Some(("SOS".into(), "ABBA".into()))),
        Some("https://www.theaudiodb.com/api/v1/json/123/searchtrack.php?s=ABBA&t=SOS".to_string())
    );
}

fn track(name: &str, vid: Option<&str>) -> AudioDbTrack {
    AudioDbTrack { str_track: name.into(), str_artist: "ABBA".into(), str_music_vid: vid.map(str::to_string) }
}

#[test]
fn first_track_with_a_video_wins() {
    assert!(pick_music_video(&vec![]).is_none());
    assert!(pick_music_video(&vec![track("a", None), track("b", Some("  "))]).is_none());
    let m = pick_music_video(&vec![track("a", None), track("b", Some(" ")), track("c", Some("https://youtu.be/c")), track("d", Some("x"))]).unwrap();
    assert_eq!(m.youtube_url, "https://youtu.be/c");
    assert_eq!(m.track_name, "c");
    assert_eq!(m.artist_name, "ABBA");
}
