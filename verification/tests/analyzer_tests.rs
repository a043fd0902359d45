use app_core::analysis_queue::{AnalysisQueue, QueuedStatus};
use app_core::analyzer::{
    claim_next, delete_cache, enqueue_all, enqueue_one, finish_active, mark_force_transcribe,
    mark_stems_only, realign, realign_all, reanalyze_all_full, reanalyze_force_transcribe,
    reanalyze_full, reanalyze_transcript, refresh_metadata, remove_from_queue_all,
    remove_from_queue_one, take_force_transcribe, take_stems_only, AnalyzerState, SongField,
};

fn s(v: &str) -> String {
    v.to_string()
}

#[test]
fn enqueueing_twice_queues_once() {
    let mut st = AnalyzerState::new();
    let first = enqueue_one(&mut st, "a", false);
    assert!(first.persist_queued);
    assert!(first.start_worker);
    let second = enqueue_one(&mut st, "a", false);
    assert!(!second.persist_queued);
    assert!(!second.start_worker);
    assert_eq!(st.queue, vec![s("a")]);
    assert!(st.worker_running);
}

#[test]
fn usdx_songs_are_never_queued() {
    let mut st = AnalyzerState::new();
    let r = enqueue_one(&mut st, "u", true);
    assert!(!r.persist_queued && !r.start_worker);
    assert!(st.queue.is_empty());
    assert!(!st.worker_running);
    assert!(reanalyze_full(&mut st, "u", true).is_none());
    assert!(delete_cache(true).is_none());
    let a = delete_cache(false).unwrap();
    assert!(!a.is_analyzed);
    assert!(a.language.is_none() && a.transcript_source.is_none());
    assert!(a.key.is_none() && a.override_key.is_none());
    assert_eq!(a.key_offset, 0);
    assert!(!a.no_stems && a.reset_tempo);
}

#[test]
fn active_song_is_not_queued_again() {
    let mut st = AnalyzerState::new();
    enqueue_one(&mut st, "a", false);
    assert_eq!(claim_next(&mut st), Some(s("a")));
    assert_eq!(st.active_hash, Some(s("a")));
    let r = enqueue_one(&mut st, "a", false);
    assert!(!r.persist_queued);
    assert!(st.queue.is_empty());
    finish_active(&mut st);
    assert_eq!(claim_next(&mut st), None);
    assert!(!st.worker_running);
}

#[test]
fn enqueue_all_skips_stored_active_and_waiting_hashes() {
    let mut st = AnalyzerState::new();
    enqueue_one(&mut st, "w", false);
    let stored = AnalysisQueue::load(&vec![QueuedStatus::Queued.to_row("p")]);
    let (added, start) = enqueue_all(&mut st, &stored, &vec![s("w"), s("p"), s("n1"), s("n1"), s("n2")]);
    assert_eq!(added, vec![s("n1"), s("n2")]);
    assert!(!start);
    assert_eq!(st.queue, vec![s("w"), s("n1"), s("n2")]);
}

#[test]
fn removing_from_the_queue() {
    let mut st = AnalyzerState::new();
    for h in ["a", "b", "c"] {
        enqueue_one(&mut st, h, false);
    }
    remove_from_queue_one(&mut st, "b");
    assert_eq!(st.queue, vec![s("a"), s("c")]);
    let n = remove_from_queue_all(&mut st, &vec![s("a"), s("x"), s("c")]);
    assert_eq!(n, 3);
    assert!(st.queue.is_empty());
}

#[test]
fn one_shot_marks_are_taken_once() {
    let mut st = AnalyzerState::new();
    mark_stems_only(&mut st, "a");
    mark_stems_only(&mut st, "a");
    assert!(take_stems_only(&mut st, "b", "a"));
    assert!(!take_stems_only(&mut st, "b", "a"));
    mark_force_transcribe(&mut st, "t");
    assert!(take_force_transcribe(&mut st, "t"));
    assert!(!take_force_transcribe(&mut st, "t"));
}

#[test]
fn reanalysis_plans() {
    let mut st = AnalyzerState::new();
    let p = reanalyze_transcript(&mut st, "a", Some(s("")), false).unwrap();
    assert!(!p.full);
    assert_eq!(p.language_override, None);
    let p = reanalyze_transcript(&mut st, "b", Some(s("de")), false).unwrap();
    assert_eq!(p.language_override, Some(s("de")));
    let p = reanalyze_full(&mut st, "c", false).unwrap();
    assert!(p.full);
    let p = reanalyze_force_transcribe(&mut st, "d", false).unwrap();
    assert!(!p.full);
    assert!(take_force_transcribe(&mut st, "d"));
    assert_eq!(st.queue, vec![s("a"), s("b"), s("c"), s("d")]);
    assert!(realign(&mut st, "u", None, None, true).is_none());
}

#[test]
fn bulk_reanalysis_skips_usdx_songs() {
    let mut st = AnalyzerState::new();
    let plans = reanalyze_all_full(&mut st, &vec![(s("a"), false), (s("u"), true), (s("b"), false)]);
    assert_eq!(plans.len(), 3);
    assert!(plans[0].is_some() && plans[1].is_none() && plans[2].is_some());
    assert_eq!(st.queue, vec![s("a"), s("b")]);
    let plans = realign_all(&mut st, &vec![(s("c"), false, Some(s("en")))], Some(s("fr")));
    assert_eq!(plans.len(), 1);
    assert!(plans[0].is_some());
}

#[test]
fn refresh_metadata_needs_a_known_song() {
    assert!(refresh_metadata(None).is_empty());
    assert_eq!(
        refresh_metadata(Some((true, false))),
        vec![
            SongField::Title,
            SongField::Artist,
            SongField::Album,
            SongField::Duration,
            SongField::AlbumArt,
            SongField::HasLrcFile,
            SongField::HasEmbeddedLyrics,
        ]
    );
    assert!(refresh_metadata(Some((false, false))).is_empty());
    assert!(refresh_metadata(Some((true, true))).is_empty());
}

#[test]
fn a_bulk_reanalysis_starts_at_most_one_worker() {
    let mut st = AnalyzerState::new();
    let songs = vec![(s("a"), false), (s("u"), true), (s("b"), false), (s("c"), false)];
    let plans = reanalyze_all_full(&mut st, &songs);
    let starts = plans.iter().filter(|p| matches!(p, Some(x) if x.enqueue.start_worker)).count();
    assert_eq!(starts, 1);
    assert!(plans[0].as_ref().unwrap().enqueue.start_worker);
    assert!(st.worker_running);
    let more = reanalyze_all_full(&mut st, &vec![(s("d"), false)]);
    assert!(!more[0].as_ref().unwrap().enqueue.start_worker);
}
