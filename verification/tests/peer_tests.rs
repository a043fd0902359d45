use app_core::analysis_queue::{FailureKind, QueuedStatus};
use app_core::peer::{
    backoff_tick, cmd_url, dispatch_one, dispatcher_after, dispatcher_may_start,
    enter_down_backoff, fetch_results, manual_ping, media_url, normalize_base_url, ping_target,
    ping_url, BackoffCheck, BackoffNext, Dispatch, DispatchEvent, DispatchNext, DispatchOutcome,
    LocalSong, PeerError, PeerLink, PeerSong, RejectReason, POLL_ATTEMPTS,
};

#[test]
fn base_url_gets_a_scheme_and_loses_trailing_slashes() {
    assert_eq!(normalize_base_url("  192.168.1.170:8080/ "), "http://192.168.1.170:8080");
    assert_eq!(normalize_base_url("https://peer.local//"), "https://peer.local");
    assert_eq!(normalize_base_url("http://peer"), "http://peer");
    assert_eq!(normalize_base_url("HTTP://peer"), "http://HTTP://peer");
    assert_eq!(normalize_base_url(""), "http://");
}

#[test]
fn peer_urls() {
    assert_eq!(cmd_url("peer:8080/", "enqueue_one"), "http://peer:8080/api/cmd/enqueue_one");
    assert_eq!(media_url("peer", "abc", "vocals"), "http://peer/media/abc/vocals");
    assert_eq!(ping_url("https://p/"), "https://p/api/bootstrap");
}

#[test]
fn manual_ping_skips_blank_urls() {
    assert_eq!(ping_target("   "), None);
    assert_eq!(ping_target(" peer:1 "), Some("peer:1".to_string()));
}

#[test]
fn live_manual_ping_resumes_a_paused_dispatcher() {
    let mut link = PeerLink { peer_down: true, backoff_running: true };
    assert!(!manual_ping(&mut link, false));
    assert!(link.peer_down);
    assert!(manual_ping(&mut link, true));
    assert!(!link.peer_down);
    assert!(link.backoff_running);
    assert!(!manual_ping(&mut link, true));
}

#[test]
fn dispatcher_starts_only_when_enabled_configured_and_up() {
    let up = PeerLink { peer_down: false, backoff_running: false };
    let down = PeerLink { peer_down: true, backoff_running: true };
    assert!(dispatcher_may_start(&up, true, true));
    assert!(!dispatcher_may_start(&up, false, true));
    assert!(!dispatcher_may_start(&up, true, false));
    assert!(!dispatcher_may_start(&down, true, true));
}

#[test]
fn only_one_backoff_thread_is_spawned() {
    let mut link = PeerLink { peer_down: false, backoff_running: false };
    assert!(enter_down_backoff(&mut link));
    assert!(link.peer_down && link.backoff_running);
    assert!(!enter_down_backoff(&mut link));
    assert_eq!(backoff_tick(&mut link, BackoffCheck::Pinged(false)), BackoffNext::Wait);
    assert!(link.peer_down);
    assert_eq!(backoff_tick(&mut link, BackoffCheck::Pinged(true)), BackoffNext::Resume);
    assert!(!link.peer_down && !link.backoff_running);
    enter_down_backoff(&mut link);
    assert_eq!(backoff_tick(&mut link, BackoffCheck::Disabled), BackoffNext::Abandon);
    assert!(!link.peer_down && !link.backoff_running);
}

fn local() -> DispatchEvent {
    DispatchEvent::LocalSongLoaded(Some(LocalSong {
        path: "/lib/a/b.mp3".into(),
        relative_path: Some("a/b.mp3".into()),
    }))
}

fn peer(hash: &str, analyzed: bool) -> DispatchEvent {
    DispatchEvent::PeerLookedUp(Ok(Some(PeerSong { file_hash: hash.into(), is_analyzed: analyzed })))
}

#[test]
fn dispatch_of_an_unanalyzed_song_triggers_polls_and_fetches() {
    let mut d = Dispatch::new("h1");
    let s = dispatch_one(&mut d, DispatchEvent::Pinged(true));
    assert!(matches!(s.next, DispatchNext::LoadLocalSong));
    let s = dispatch_one(&mut d, local());
    assert!(matches!(s.next, DispatchNext::LookupPeer(ref p) if p == "a/b.mp3"));
    let s = dispatch_one(&mut d, peer("h1", false));
    assert!(s.clear_mismatch);
    assert!(matches!(s.next, DispatchNext::Trigger));
    let s = dispatch_one(&mut d, DispatchEvent::Triggered(Ok(())));
    assert_eq!(s.mark_analyzing, Some(0));
    assert!(matches!(s.next, DispatchNext::Poll));
    let s = dispatch_one(&mut d, DispatchEvent::Polled(Ok(Some(QueuedStatus::Analyzing(40)))));
    assert_eq!(s.mark_analyzing, Some(40));
    assert!(matches!(s.next, DispatchNext::Poll));
    let s = dispatch_one(&mut d, DispatchEvent::Polled(Ok(None)));
    assert!(matches!(s.next, DispatchNext::ConfirmFinish));
    let s = dispatch_one(&mut d, DispatchEvent::FinishConfirmed(Ok(Some(PeerSong { file_hash: "h1".into(), is_analyzed: true }))));
    assert!(matches!(s.next, DispatchNext::Fetch));
    let s = dispatch_one(&mut d, DispatchEvent::Fetched(true));
    assert!(matches!(s.next, DispatchNext::Finalize));
    let s = dispatch_one(&mut d, DispatchEvent::Finalized(true));
    assert_eq!(s.record_timing, Some((false, Some(2))));
    assert!(!s.return_to_front);
    assert!(matches!(s.next, DispatchNext::Finish(DispatchOutcome::Done)));
}

#[test]
fn already_analyzed_song_is_fetched_directly() {
    let mut d = Dispatch::new("h1");
    dispatch_one(&mut d, DispatchEvent::Pinged(true));
    dispatch_one(&mut d, local());
    let s = dispatch_one(&mut d, peer("h1", true));
    assert!(matches!(s.next, DispatchNext::Fetch));
    dispatch_one(&mut d, DispatchEvent::Fetched(true));
    let s = dispatch_one(&mut d, DispatchEvent::Finalized(true));
    assert_eq!(s.record_timing, Some((true, None)));
}

#[test]
fn different_hash_on_peer_is_recorded_and_handed_back() {
    let mut d = Dispatch::new("h1");
    dispatch_one(&mut d, DispatchEvent::Pinged(true));
    dispatch_one(&mut d, local());
    let s = dispatch_one(&mut d, peer("other", true));
    assert_eq!(s.record_mismatch, Some(Some("other".to_string())));
    assert!(s.return_to_front);
    assert!(matches!(s.next,
        DispatchNext::Finish(DispatchOutcome::Rejected(RejectReason::PeerHashDiffers { ref relative_path, ref peer_hash }))
        if relative_path == "a/b.mp3" && peer_hash == "other"));
    assert_eq!(d.local_path, "/lib/a/b.mp3");
}

#[test]
fn missing_song_on_peer_is_recorded_as_mismatch() {
    let mut d = Dispatch::new("h1");
    dispatch_one(&mut d, DispatchEvent::Pinged(true));
    dispatch_one(&mut d, local());
    let s = dispatch_one(&mut d, DispatchEvent::PeerLookedUp(Err(PeerError::Other)));
    assert_eq!(s.record_mismatch, Some(None));
    assert!(s.return_to_front);
    assert!(matches!(s.next,
        DispatchNext::Finish(DispatchOutcome::Rejected(RejectReason::PeerHasNothing { ref relative_path }))
        if relative_path == "a/b.mp3"));
}

#[test]
fn unreachable_peer_ends_the_dispatch() {
    let mut d = Dispatch::new("h1");
    let s = dispatch_one(&mut d, DispatchEvent::Pinged(false));
    assert!(matches!(s.next, DispatchNext::Finish(DispatchOutcome::PeerDown)));
    assert!(!s.return_to_front);
}

#[test]
fn song_gone_from_local_library_is_not_handed_back() {
    let mut d = Dispatch::new("h1");
    dispatch_one(&mut d, DispatchEvent::Pinged(true));
    let s = dispatch_one(&mut d, DispatchEvent::LocalSongLoaded(None));
    assert!(!s.return_to_front);
    assert!(matches!(s.next, DispatchNext::Finish(DispatchOutcome::Rejected(RejectReason::NotInLibrary))));
    let mut d = Dispatch::new("h1");
    dispatch_one(&mut d, DispatchEvent::Pinged(true));
    let s = dispatch_one(&mut d, DispatchEvent::LocalSongLoaded(Some(LocalSong { path: "/x".into(), relative_path: None })));
    assert!(s.return_to_front);
    assert!(matches!(s.next, DispatchNext::Finish(DispatchOutcome::Rejected(RejectReason::NotUnderLibraryRoot))));
}

#[test]
fn peer_failure_during_poll_is_handed_back() {
    let mut d = Dispatch::new("h1");
    dispatch_one(&mut d, DispatchEvent::Pinged(true));
    dispatch_one(&mut d, local());
    dispatch_one(&mut d, peer("h1", false));
    dispatch_one(&mut d, DispatchEvent::Triggered(Ok(())));
    let failed = QueuedStatus::Failed { kind: FailureKind::Worker, message: "bad audio".into(), acknowledged: false };
    let s = dispatch_one(&mut d, DispatchEvent::Polled(Ok(Some(failed))));
    assert!(s.return_to_front);
    assert!(matches!(s.next,
        DispatchNext::Finish(DispatchOutcome::Rejected(RejectReason::PeerReportedFailure { ref message }))
        if message == "bad audio"));
}

#[test]
fn polling_times_out_after_the_last_attempt() {
    let mut d = Dispatch::new("h1");
    dispatch_one(&mut d, DispatchEvent::Pinged(true));
    dispatch_one(&mut d, local());
    dispatch_one(&mut d, peer("h1", false));
    dispatch_one(&mut d, DispatchEvent::Triggered(Ok(())));
    for _ in 1..POLL_ATTEMPTS {
        let s = dispatch_one(&mut d, DispatchEvent::Polled(Ok(Some(QueuedStatus::Queued))));
        assert!(matches!(s.next, DispatchNext::Poll));
    }
    let s = dispatch_one(&mut d, DispatchEvent::Polled(Err(PeerError::Other)));
    assert!(s.return_to_front);
    assert!(matches!(s.next, DispatchNext::Finish(DispatchOutcome::Rejected(RejectReason::TimedOut))));
}

#[test]
fn disabling_mid_poll_gives_up() {
    let mut d = Dispatch::new("h1");
    dispatch_one(&mut d, DispatchEvent::Pinged(true));
    dispatch_one(&mut d, local());
    dispatch_one(&mut d, peer("h1", false));
    dispatch_one(&mut d, DispatchEvent::Triggered(Ok(())));
    let s = dispatch_one(&mut d, DispatchEvent::PollDisabled);
    assert!(s.return_to_front);
    assert!(matches!(s.next, DispatchNext::Finish(DispatchOutcome::Rejected(RejectReason::DisabledMidPoll))));
}

#[test]
fn failed_fetch_or_finalize_hands_back() {
    let mut d = Dispatch::new("h1");
    dispatch_one(&mut d, DispatchEvent::Pinged(true));
    dispatch_one(&mut d, local());
    dispatch_one(&mut d, peer("h1", true));
    let s = dispatch_one(&mut d, DispatchEvent::Fetched(false));
    assert!(s.return_to_front);
    assert!(matches!(s.next, DispatchNext::Finish(DispatchOutcome::Rejected(RejectReason::FetchFailed))));
    let mut d = Dispatch::new("h1");
    dispatch_one(&mut d, DispatchEvent::Pinged(true));
    dispatch_one(&mut d, local());
    dispatch_one(&mut d, peer("h1", true));
    dispatch_one(&mut d, DispatchEvent::Fetched(true));
    let s = dispatch_one(&mut d, DispatchEvent::Finalized(false));
    assert!(s.return_to_front);
    assert_eq!(s.record_timing, None);
    assert!(matches!(s.next, DispatchNext::Finish(DispatchOutcome::Rejected(RejectReason::FinalizeFailed))));
}

#[test]
fn fetch_needs_transcript_and_stems_unless_stemless() {
    assert!(fetch_results(true, false, true, true));
    assert!(fetch_results(true, true, false, false));
    assert!(!fetch_results(true, false, true, false));
    assert!(!fetch_results(false, true, true, true));
}

#[test]
fn rejected_songs_are_skipped_for_the_rest_of_the_run() {
    let mut skip: Vec<String> = Vec::new();
    assert!(dispatcher_after(&mut skip, "h1", &DispatchOutcome::Rejected(RejectReason::TriggerFailed)));
    assert!(dispatcher_after(&mut skip, "h1", &DispatchOutcome::Rejected(RejectReason::FetchFailed)));
    assert_eq!(skip, vec!["h1".to_string()]);
    assert!(dispatcher_after(&mut skip, "h2", &DispatchOutcome::Done));
    assert_eq!(skip.len(), 1);
    assert!(!dispatcher_after(&mut skip, "h3", &DispatchOutcome::PeerDown));
    assert_eq!(skip.len(), 1);
}
