use app_core::migrations::{
    import_batches, legacy_source_file_name, migration_steps, missing_columns,
    plan_song_list_import, MigrationProgress, SongListImport, SCHEMA_VERSION,
};

fn strings(items: &[&str]) -> Vec<String> {
    items.iter().map(|s| s.to_string()).collect()
}

#[test]
fn fresh_store_runs_every_step_in_order() {
    assert_eq!(migration_steps(0), vec![1, 2, 3, 4]);
}

#[test]
fn partially_migrated_store_runs_only_later_steps() {
    assert_eq!(migration_steps(1), vec![2, 3, 4]);
    assert_eq!(migration_steps(2), vec![3, 4]);
    assert_eq!(migration_steps(3), vec![4]);
}

#[test]
fn current_store_runs_nothing() {
    assert!(migration_steps(SCHEMA_VERSION).is_empty());
    assert!(migration_steps(SCHEMA_VERSION + 3).is_empty());
}

#[test]
fn migrating_twice_runs_nothing_the_second_time() {
    let first = migration_steps(0);
    assert!(!first.is_empty());
    assert!(migration_steps(SCHEMA_VERSION).is_empty());
}

#[test]
fn missing_columns_lists_only_absent_ones_in_order() {
    let existing = strings(&["id", "has_lrc_file", "title"]);
    let wanted = strings(&["has_lrc_file", "has_embedded_lyrics", "genre"]);
    assert_eq!(
        missing_columns(&existing, &wanted),
        strings(&["has_embedded_lyrics", "genre"])
    );
}

#[test]
fn missing_columns_of_a_complete_table_is_empty() {
    let existing = strings(&["failed_kind", "failed_acknowledged"]);
    let wanted = strings(&["failed_kind", "failed_acknowledged"]);
    assert!(missing_columns(&existing, &wanted).is_empty());
}

#[test]
fn import_batches_cut_like_chunks() {
    assert_eq!(import_batches(120, 50), vec![(0, 50), (50, 100), (100, 120)]);
    assert_eq!(import_batches(100, 50), vec![(0, 50), (50, 100)]);
    assert_eq!(import_batches(3, 50), vec![(0, 3)]);
    assert!(import_batches(0, 50).is_empty());
}

#[test]
fn legacy_source_file_uses_container_or_bin() {
    assert_eq!(legacy_source_file_name("abc123", Some("flac")), "abc123.flac");
    assert_eq!(legacy_source_file_name("abc123", None), "abc123.bin");
}

#[test]
fn progress_counts_every_imported_batch() {
    let mut p = MigrationProgress::new();
    assert!(!p.is_song_migration_in_progress());
    p.start(120);
    assert!(p.is_song_migration_in_progress());
    assert_eq!(p.song_migration_total(), 120);
    assert_eq!(p.song_migration_done(), 0);
    for (start, end) in import_batches(120, 50) {
        p.record_batch(end - start);
    }
    assert_eq!(p.song_migration_done(), 120);
    p.finish();
    assert!(!p.is_song_migration_in_progress());
    assert_eq!(p.song_migration_done(), 120);
}

#[test]
fn song_list_import_plan_follows_startup_checks() {
    assert_eq!(plan_song_list_import(false, Some(0), Some(10)), SongListImport::Skip);
    assert_eq!(plan_song_list_import(true, None, Some(10)), SongListImport::Skip);
    assert_eq!(plan_song_list_import(true, Some(3), Some(10)), SongListImport::Skip);
    assert_eq!(plan_song_list_import(true, Some(0), None), SongListImport::Skip);
    assert_eq!(plan_song_list_import(true, Some(0), Some(0)), SongListImport::ArchiveEmpty);
    assert_eq!(plan_song_list_import(true, Some(0), Some(10)), SongListImport::Import);
}
