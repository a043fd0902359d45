use app_core::analysis_queue::{
    acknowledge_failures, remove_from_queue, update_queue_status, AnalysisQueue,
    AnalysisQueueTable, FailureKind, QueueRow, QueuedStatus,
};

const KINDS: [FailureKind; 7] = [
    FailureKind::AudioPrep,
    FailureKind::ServerStartup,
    FailureKind::ServerCrash,
    FailureKind::GpuOom,
    FailureKind::Worker,
    FailureKind::MissingOutput,
    FailureKind::Other,
];

#[test]
fn failure_kinds_round_trip_through_their_names() {
    for k in KINDS {
        assert_eq!(FailureKind::from_db_str(k.as_db_str()), k);
    }
    assert_eq!(FailureKind::GpuOom.as_db_str(), "gpu_oom");
    assert_eq!(FailureKind::from_db_str("something_new"), FailureKind::Other);
}

fn failed(kind: FailureKind, msg: &str) -> QueuedStatus {
    QueuedStatus::Failed { kind, message: msg.to_string(), acknowledged: false }
}

#[test]
fn statuses_round_trip_through_rows() {
    for s in [QueuedStatus::Queued, QueuedStatus::Analyzing(42), failed(FailureKind::Worker, "boom")] {
        let row = s.to_row("h1");
        assert_eq!(row.file_hash, "h1");
        let back = QueuedStatus::from_row(row);
        match (&s, &back) {
            (QueuedStatus::Queued, QueuedStatus::Queued) => {}
            (QueuedStatus::Analyzing(a), QueuedStatus::Analyzing(b)) => assert_eq!(a, b),
            (
                QueuedStatus::Failed { kind: k1, message: m1, acknowledged: a1 },
                QueuedStatus::Failed { kind: k2, message: m2, acknowledged: a2 },
            ) => {
                assert_eq!(k1, k2);
                assert_eq!(m1, m2);
                assert_eq!(a1, a2);
            }
            _ => panic!("status changed: {s:?} -> {back:?}"),
        }
    }
}

#[test]
fn failed_row_is_stored_with_its_columns() {
    let row = failed(FailureKind::GpuOom, "CUDA out of memory").to_row("h2");
    assert_eq!(row.status, "failed");
    assert_eq!(row.failed_kind, Some("gpu_oom".to_string()));
    assert_eq!(row.failed_message, Some("CUDA out of memory".to_string()));
    assert!(!row.failed_acknowledged);
    let row = QueuedStatus::Analyzing(7).to_row("h3");
    assert_eq!((row.status.as_str(), row.analyzing_pct), ("analyzing", Some(7)));
}

#[test]
fn saved_queue_loads_back() {
    let rows = vec![
        QueuedStatus::Queued.to_row("a"),
        QueuedStatus::Analyzing(10).to_row("b"),
        failed(FailureKind::ServerCrash, "Server crashed: eof").to_row("c"),
    ];
    let q = AnalysisQueue::load(&rows);
    assert!(q.contains_hash("b"));
    assert!(!q.contains_hash("z"));
    let saved = q.save();
    let again = AnalysisQueue::load(&saved);
    assert_eq!(again.entries.len(), 3);
    for h in ["a", "b", "c"] {
        assert!(again.contains_hash(h));
    }
}

#[test]
fn later_row_for_a_hash_wins_on_load() {
    let rows = vec![QueuedStatus::Queued.to_row("a"), QueuedStatus::Analyzing(5).to_row("a")];
    let q = AnalysisQueue::load(&rows);
    assert_eq!(q.entries.len(), 1);
    assert!(matches!(q.entries[0].1, QueuedStatus::Analyzing(5)));
}

#[test]
fn unknown_status_reads_as_queued() {
    let row = QueueRow {
        file_hash: "x".into(),
        status: "weird".into(),
        analyzing_pct: None,
        failed_message: None,
        failed_kind: None,
        failed_acknowledged: false,
    };
    assert!(matches!(QueuedStatus::from_row(row), QueuedStatus::Queued));
}

fn row<'a>(t: &'a AnalysisQueueTable, h: &str) -> Option<&'a QueueRow> {
    t.rows.iter().find(|r| r.file_hash == h)
}

#[test]
fn status_write_then_read() {
    let mut t = AnalysisQueueTable::new();
    update_queue_status(&mut t, "a", &QueuedStatus::Queued);
    update_queue_status(&mut t, "a", &QueuedStatus::Analyzing(30));
    assert_eq!(t.rows.len(), 1);
    assert_eq!(row(&t, "a").unwrap().analyzing_pct, Some(30));
    remove_from_queue(&mut t, "a");
    assert!(t.rows.is_empty());
}

#[test]
fn acknowledge_touches_only_listed_failures_of_that_kind() {
    let mut t = AnalysisQueueTable::new();
    update_queue_status(&mut t, "a", &failed(FailureKind::GpuOom, "oom"));
    update_queue_status(&mut t, "b", &failed(FailureKind::Worker, "w"));
    update_queue_status(&mut t, "c", &failed(FailureKind::GpuOom, "oom"));
    update_queue_status(&mut t, "d", &QueuedStatus::Queued);
    acknowledge_failures(&mut t, FailureKind::GpuOom, &vec!["a".to_string(), "b".to_string(), "d".to_string()]);
    assert!(row(&t, "a").unwrap().failed_acknowledged);
    assert!(!row(&t, "b").unwrap().failed_acknowledged);
    assert!(!row(&t, "c").unwrap().failed_acknowledged);
    assert!(!row(&t, "d").unwrap().failed_acknowledged);
    assert_eq!(t.rows.len(), 4);
}

#[test]
fn clearing_the_stored_queue() {
    let mut t = AnalysisQueueTable::new();
    update_queue_status(&mut t, "a", &QueuedStatus::Queued);
    AnalysisQueue::clear(&mut t);
    assert!(t.rows.is_empty());
}

use app_core::analysis_queue::{legacy_queue_row, parse_legacy_queue_status, LegacyEntry};

fn legacy(is_object: bool, has_queued: bool, analyzing: Option<u64>, failed: Option<&str>) -> LegacyEntry {
    LegacyEntry { is_object, has_queued, analyzing, failed: failed.map(str::to_string) }
}

#[test]
fn legacy_entries_are_imported() {
    assert_eq!(parse_legacy_queue_status(&legacy(false, false, Some(3), None)), ("queued", None, None));
    assert_eq!(parse_legacy_queue_status(&legacy(true, true, Some(3), Some("x"))), ("queued", None, None));
    assert_eq!(parse_legacy_queue_status(&legacy(true, false, Some(3), Some("x"))), ("analyzing", Some(3), None));
    assert_eq!(
        parse_legacy_queue_status(&legacy(true, false, None, Some("boom"))),
        ("failed", None, Some("boom".to_string()))
    );
    assert_eq!(parse_legacy_queue_status(&legacy(true, false, None, None)), ("queued", None, None));
    let row = legacy_queue_row("h", &legacy(true, false, None, Some("boom")));
    assert_eq!(row.status, "failed");
    assert_eq!(row.failed_kind, None);
    assert!(!row.failed_acknowledged);
}
