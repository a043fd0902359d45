use app_core::video_queue::{
    clear, clear_all, mark_processing, mark_queued_many, VideoProcessingQueue, VideoQueueKind,
    VideoQueueStage, VideoQueueTable,
};

fn row_of(t: &VideoQueueTable, hash: &str, kind: VideoQueueKind) -> Option<(VideoQueueStage, String)> {
    t.rows
        .iter()
        .find(|r| r.file_hash == hash && r.kind == kind)
        .map(|r| (r.stage, r.started_at.clone()))
}

#[test]
fn kind_and_stage_names_round_trip() {
    for k in [VideoQueueKind::Reel, VideoQueueKind::Youtube] {
        assert_eq!(VideoQueueKind::from_db_str(k.as_db_str()), Some(k));
    }
    for s in [VideoQueueStage::Queued, VideoQueueStage::Processing] {
        assert_eq!(VideoQueueStage::from_db_str(s.as_db_str()), Some(s));
    }
    assert_eq!(VideoQueueKind::from_db_str("Reel"), None);
    assert_eq!(VideoQueueStage::from_db_str("done"), None);
}

#[test]
fn load_drops_rows_with_unknown_kind_or_stage() {
    let rows = vec![
        ("a".to_string(), "reel".to_string(), "queued".to_string()),
        ("b".to_string(), "vhs".to_string(), "queued".to_string()),
        ("c".to_string(), "youtube".to_string(), "processing".to_string()),
        ("d".to_string(), "youtube".to_string(), "paused".to_string()),
    ];
    let q = VideoProcessingQueue::load(&rows);
    assert_eq!(q.entries.len(), 2);
    assert_eq!(q.entries[0].file_hash, "a");
    assert_eq!(q.entries[0].kind, VideoQueueKind::Reel);
    assert_eq!(q.entries[1].file_hash, "c");
    assert_eq!(q.entries[1].stage, VideoQueueStage::Processing);
}

#[test]
fn queueing_keeps_an_existing_started_at() {
    let mut t = VideoQueueTable::new();
    let token = mark_processing(&mut t, "a", VideoQueueKind::Reel, "t1");
    assert_eq!(token, "t1");
    mark_queued_many(&mut t, VideoQueueKind::Reel, &vec!["a".to_string(), "b".to_string()], "t2");
    assert_eq!(row_of(&t, "a", VideoQueueKind::Reel), Some((VideoQueueStage::Queued, "t1".to_string())));
    assert_eq!(row_of(&t, "b", VideoQueueKind::Reel), Some((VideoQueueStage::Queued, "t2".to_string())));
    assert_eq!(row_of(&t, "a", VideoQueueKind::Youtube), None);
    mark_queued_many(&mut t, VideoQueueKind::Youtube, &vec!["a".to_string(), "a".to_string()], "t3");
    assert_eq!(t.rows.len(), 3);
}

#[test]
fn clear_only_removes_the_callers_own_run() {
    let mut t = VideoQueueTable::new();
    let bulk = mark_processing(&mut t, "a", VideoQueueKind::Youtube, "t1");
    let single = mark_processing(&mut t, "a", VideoQueueKind::Youtube, "t2");
    clear(&mut t, "a", VideoQueueKind::Youtube, &bulk);
    assert_eq!(row_of(&t, "a", VideoQueueKind::Youtube), Some((VideoQueueStage::Processing, "t2".to_string())));
    clear(&mut t, "a", VideoQueueKind::Youtube, &single);
    assert_eq!(row_of(&t, "a", VideoQueueKind::Youtube), None);
    clear(&mut t, "missing", VideoQueueKind::Reel, "t9");
    assert!(t.rows.is_empty());
}

#[test]
fn startup_sweep_empties_the_table() {
    let mut t = VideoQueueTable::new();
    mark_queued_many(&mut t, VideoQueueKind::Reel, &vec!["a".to_string(), "b".to_string()], "t");
    clear_all(&mut t);
    assert!(t.rows.is_empty());
}
