use app_core::commands::{
    parse_command, route_command, save_config_actions, unknown_command, Command, ConfigAction,
    ConfigFlags,
};
use app_core::peer::describe;
use app_core::text::contains_str;
use app_core::youtube::{throttle_wait_ms, ytdlp_format};

fn flags(auto: bool, enabled: bool, url: Option<&str>, only: bool) -> ConfigFlags {
    ConfigFlags {
        auto_analyze: auto,
        parallel_analysis_enabled: enabled,
        parallel_analysis_url: url.map(str::to_string),
        parallel_analysis_only: only,
    }
}

#[test]
fn saving_unchanged_settings_starts_nothing() {
    let f = flags(true, true, Some("peer"), true);
    assert!(save_config_actions(&f, &flags(true, true, Some("peer"), true)).is_empty());
}

#[test]
fn settings_transitions_start_work_in_order() {
    let prev = flags(false, false, None, true);
    let next = flags(true, true, Some("peer"), false);
    assert_eq!(
        save_config_actions(&prev, &next),
        vec![ConfigAction::EnqueueAll, ConfigAction::EnsureDispatcher, ConfigAction::EnqueueAll]
    );
    let repointed = save_config_actions(&flags(false, true, Some("a"), false), &flags(false, true, Some("b"), true));
    assert_eq!(repointed, vec![ConfigAction::EnsureDispatcher, ConfigAction::EnsureDispatcher]);
    let disabled = save_config_actions(&flags(true, true, Some("a"), false), &flags(false, false, Some("a"), false));
    assert!(disabled.is_empty());
}

#[test]
fn unknown_commands_are_not_found() {
    assert_eq!(unknown_command("frobnicate"), (404, "unknown command frobnicate".to_string()));
}

#[test]
fn describe_labels_songs() {
    assert_eq!(describe("h1", Some("song.mp3")), "song.mp3 (h1)");
    assert_eq!(describe("h1", None), "h1");
}

#[test]
fn downloads_are_kept_apart() {
    assert_eq!(throttle_wait_ms(None), 0);
    assert_eq!(throttle_wait_ms(Some(2_500)), 7_500);
    assert_eq!(throttle_wait_ms(Some(10_000)), 0);
    assert_eq!(throttle_wait_ms(Some(60_000)), 0);
}

#[test]
fn ytdlp_asks_for_1080p_or_better() {
    assert_eq!(
        ytdlp_format(),
        "bestvideo[height>=1080][vcodec^=avc1]+bestaudio/bestvideo[height>=1080]+bestaudio/best[height>=1080]"
    );
}

#[test]
fn substring_search() {
    assert!(contains_str("abcabd", "abd"));
    assert!(contains_str("abc", ""));
    assert!(!contains_str("ab", "abc"));
    assert!(!contains_str("aXbXc", "abc"));
}

#[test]
fn command_names_route_to_their_commands() {
    assert_eq!(parse_command("enqueue_one"), Some(Command::EnqueueOne));
    assert_eq!(parse_command("load_video_queue"), Some(Command::LoadVideoQueue));
    assert_eq!(parse_command("minimize_window"), Some(Command::WindowStub));
    assert_eq!(parse_command("frontend_ready"), Some(Command::WindowStub));
    assert_eq!(parse_command("stop_mic_capture"), Some(Command::MicCapture));
    assert_eq!(parse_command("fetch_youtube_karaoke_video_all"), Some(Command::FetchYoutubeKaraokeVideoAll));
    assert_eq!(parse_command("Enqueue_One"), None);
    assert_eq!(parse_command(""), None);
}

#[test]
fn routing_an_unknown_name_is_not_found() {
    assert_eq!(route_command("save_config"), Ok(Command::SaveConfig));
    assert_eq!(route_command("explode"), Err((404, "unknown command explode".to_string())));
}

#[test]
fn every_api_name_is_known() {
    let names = [
        "frontend_ready", "window_immersive", "minimize_window", "load_config", "save_config",
        "calculate_cache_stats", "clear_videos_command", "clear_models_command", "clear_all",
        "load_profiles", "create_profile", "switch_profile", "delete_profile", "add_score",
        "trigger_scan", "set_library_source", "clear_library_source", "jellyfin_login",
        "jellyfin_ping", "navidrome_login", "navidrome_ping", "plex_begin_pin", "plex_poll_pin",
        "plex_manual_login", "plex_ping", "parallel_analysis_ping", "load_songs",
        "load_songs_by_hashes", "load_song_by_path", "load_songs_meta", "load_analysis_queue",
        "load_video_queue", "load_library_menu_items", "enqueue_one", "enqueue_all",
        "delete_song_cache", "reanalyze_transcript", "reanalyze_full", "realign",
        "reanalyze_force_transcribe", "set_song_language", "reanalyze_all_full",
        "reanalyze_all_transcript", "reanalyze_all_force_transcribe", "realign_all",
        "refresh_metadata", "refresh_metadata_all", "remove_from_queue_one",
        "remove_from_queue_all", "acknowledge_analysis_failures", "shift_key", "shift_tempo",
        "load_lyrics", "search_lrclib_lyrics", "find_music_video", "download_youtube_video",
        "detect_video_sync_offset", "save_lyrics", "provide_lrc", "apply_timed_lyrics",
        "load_transcript", "get_audio_paths", "ensure_mp3_stems", "ensure_playable_source_video",
        "fetch_pixabay_videos", "download_all_pixabay_videos", "get_background_video_count",
        "get_background_reel_count", "build_background_reels", "render_karaoke_video",
        "force_rerender_karaoke_video", "fetch_youtube_karaoke_video",
        "force_fetch_youtube_karaoke_video", "render_karaoke_video_all",
        "force_rerender_karaoke_video_all", "fetch_youtube_karaoke_video_all", "is_ready",
        "trigger_setup", "list_microphones", "start_mic_capture", "stop_mic_capture",
    ];
    for name in names {
        assert!(parse_command(name).is_some(), "{name}");
    }
}
