//! Decisions of the command API: which command a name calls, what saving
//! the settings sets in motion, and the answer to a command nobody knows.

use vstd::prelude::*;

use crate::text::str_equals;

verus! {

/// The settings whose change starts work.
pub struct ConfigFlags {
    pub auto_analyze: bool,
    pub parallel_analysis_enabled: bool,
    pub parallel_analysis_url: Option<String>,
    pub parallel_analysis_only: bool,
}

/// Work to start after the settings were saved.
#[derive(Debug, Clone, Copy, PartialEq, Eq, Structural)]
pub enum ConfigAction {
    /// Re-sweep the library into the analysis queue.
    EnqueueAll,
    /// Start the peer dispatcher.
    EnsureDispatcher,
}

/// An optional URL taken by its characters.
pub open spec fn url_view(u: Option<String>) -> Option<Seq<char>> {
    match u {
        Some(s) => Some(s@),
        None => None,
    }
}

/// The work a settings change starts, in order: turning auto-analysis on
/// sweeps the library; turning parallel analysis on, or pointing it at
/// another peer while on, starts the dispatcher; turning peer-only
/// analysis off sweeps again (the local worker left songs queued); turning
/// it on starts the dispatcher (it may have exited already).
pub open spec fn config_actions(
    prev_auto: bool,
    prev_parallel: (bool, Option<Seq<char>>),
    prev_only: bool,
    next_auto: bool,
    next_parallel: (bool, Option<Seq<char>>),
    next_only: bool,
) -> Seq<ConfigAction> {
    let a: Seq<ConfigAction> = if next_auto && !prev_auto {
        seq![ConfigAction::EnqueueAll]
    } else {
        Seq::empty()
    };
    let b: Seq<ConfigAction> = if next_parallel.0 && next_parallel != prev_parallel {
        a.push(ConfigAction::EnsureDispatcher)
    } else {
        a
    };
    let c: Seq<ConfigAction> = if prev_only && !next_only {
        b.push(ConfigAction::EnqueueAll)
    } else {
        b
    };
    if !prev_only && next_only {
        c.push(ConfigAction::EnsureDispatcher)
    } else {
        c
    }
}

fn same_url(a: &Option<String>, b: &Option<String>) -> (r: bool)
    ensures
        r == (url_view(*a) == url_view(*b)),
{
    match (a, b) {
        (Some(x), Some(y)) => str_equals(x.as_str(), y.as_str()),
        (None, None) => true,
        _ => false,
    }
}

/// The work saving the settings `next` over `prev` starts.
pub fn save_config_actions(prev: &ConfigFlags, next: &ConfigFlags) -> (r: Vec<ConfigAction>)
    ensures
        r@ == config_actions(
            prev.auto_analyze,
            (prev.parallel_analysis_enabled, url_view(prev.parallel_analysis_url)),
            prev.parallel_analysis_only,
            next.auto_analyze,
            (next.parallel_analysis_enabled, url_view(next.parallel_analysis_url)),
            next.parallel_analysis_only,
        ),
{
    let mut actions: Vec<ConfigAction> = Vec::new();
    if next.auto_analyze && !prev.auto_analyze {
        actions.push(ConfigAction::EnqueueAll);
    }
    let changed = next.parallel_analysis_enabled != prev.parallel_analysis_enabled || !same_url(
        &next.parallel_analysis_url,
        &prev.parallel_analysis_url,
    );
    if next.parallel_analysis_enabled && changed {
        actions.push(ConfigAction::EnsureDispatcher);
    }
    if prev.parallel_analysis_only && !next.parallel_analysis_only {
        actions.push(ConfigAction::EnqueueAll);
    }
    if !prev.parallel_analysis_only && next.parallel_analysis_only {
        actions.push(ConfigAction::EnsureDispatcher);
    }
    proof {
        let pv = (prev.parallel_analysis_enabled, url_view(prev.parallel_analysis_url));
        let nv = (next.parallel_analysis_enabled, url_view(next.parallel_analysis_url));
        assert(changed == (nv != pv));
        assert(actions@ =~= config_actions(
            prev.auto_analyze,
            pv,
            prev.parallel_analysis_only,
            next.auto_analyze,
            nv,
            next.parallel_analysis_only,
        ));
    }
    actions
}

/// Saving unchanged settings starts nothing.
pub proof fn lemma_unchanged_config_starts_nothing(
    auto: bool,
    parallel: (bool, Option<Seq<char>>),
    only: bool,
)
    ensures
        config_actions(auto, parallel, only, auto, parallel, only).len() == 0,
{
}

/// Turning parallel analysis on starts the peer dispatcher, whatever peer
/// it pointed at before and whatever else changed.
pub proof fn lemma_enabling_parallel_starts_dispatcher(
    prev_auto: bool,
    prev_parallel: (bool, Option<Seq<char>>),
    prev_only: bool,
    next_auto: bool,
    next_parallel: (bool, Option<Seq<char>>),
    next_only: bool,
)
    requires
        !prev_parallel.0,
        next_parallel.0,
    ensures
        config_actions(prev_auto, prev_parallel, prev_only, next_auto, next_parallel, next_only).contains(
            ConfigAction::EnsureDispatcher,
        ),
{
    let a: Seq<ConfigAction> = if next_auto && !prev_auto {
        seq![ConfigAction::EnqueueAll]
    } else {
        Seq::empty()
    };
    let b = a.push(ConfigAction::EnsureDispatcher);
    assert(b[a.len() as int] == ConfigAction::EnsureDispatcher);
    let r = config_actions(prev_auto, prev_parallel, prev_only, next_auto, next_parallel, next_only);
    assert(r[a.len() as int] == ConfigAction::EnsureDispatcher);
}

/// Pointing parallel analysis at another peer while it stays on starts the
/// peer dispatcher again.
pub proof fn lemma_retargeting_parallel_starts_dispatcher(
    prev_auto: bool,
    prev_parallel: (bool, Option<Seq<char>>),
    prev_only: bool,
    next_auto: bool,
    next_parallel: (bool, Option<Seq<char>>),
    next_only: bool,
)
    requires
        prev_parallel.0,
        next_parallel.0,
        prev_parallel.1 != next_parallel.1,
    ensures
        config_actions(prev_auto, prev_parallel, prev_only, next_auto, next_parallel, next_only).contains(
            ConfigAction::EnsureDispatcher,
        ),
{
    let a: Seq<ConfigAction> = if next_auto && !prev_auto {
        seq![ConfigAction::EnqueueAll]
    } else {
        Seq::empty()
    };
    let b = a.push(ConfigAction::EnsureDispatcher);
    assert(b[a.len() as int] == ConfigAction::EnsureDispatcher);
    let r = config_actions(prev_auto, prev_parallel, prev_only, next_auto, next_parallel, next_only);
    assert(r[a.len() as int] == ConfigAction::EnsureDispatcher);
}

/// The dispatcher is started only for a reason: parallel analysis is on
/// after the save, or peer-only analysis was just turned on. The library
/// is swept exactly when auto-analysis was just turned on or peer-only
/// analysis just turned off.
pub proof fn lemma_config_actions_have_reasons(
    prev_auto: bool,
    prev_parallel: (bool, Option<Seq<char>>),
    prev_only: bool,
    next_auto: bool,
    next_parallel: (bool, Option<Seq<char>>),
    next_only: bool,
)
    ensures
        config_actions(prev_auto, prev_parallel, prev_only, next_auto, next_parallel, next_only).contains(
            ConfigAction::EnsureDispatcher,
        ) ==> next_parallel.0 || (!prev_only && next_only),
        config_actions(prev_auto, prev_parallel, prev_only, next_auto, next_parallel, next_only).contains(
            ConfigAction::EnqueueAll,
        ) == ((next_auto && !prev_auto) || (prev_only && !next_only)),
{
    let a: Seq<ConfigAction> = if next_auto && !prev_auto {
        seq![ConfigAction::EnqueueAll]
    } else {
        Seq::empty()
    };
    let b: Seq<ConfigAction> = if next_parallel.0 && next_parallel != prev_parallel {
        a.push(ConfigAction::EnsureDispatcher)
    } else {
        a
    };
    let c: Seq<ConfigAction> = if prev_only && !next_only {
        b.push(ConfigAction::EnqueueAll)
    } else {
        b
    };
    let r = config_actions(prev_auto, prev_parallel, prev_only, next_auto, next_parallel, next_only);
    assert(r == if !prev_only && next_only {
        c.push(ConfigAction::EnsureDispatcher)
    } else {
        c
    });
    if next_auto && !prev_auto {
        assert(a[0] == ConfigAction::EnqueueAll);
        assert(r[0] == ConfigAction::EnqueueAll);
    }
    if prev_only && !next_only {
        assert(c[b.len() as int] == ConfigAction::EnqueueAll);
        assert(r[b.len() as int] == ConfigAction::EnqueueAll);
    }
    if r.contains(ConfigAction::EnqueueAll) && !((next_auto && !prev_auto) || (prev_only && !next_only)) {
        let i = choose|i: int| 0 <= i < r.len() && r[i] == ConfigAction::EnqueueAll;
        assert(a.len() == 0);
        assert(c == b);
        assert(r[i] == ConfigAction::EnsureDispatcher);
    }
    if r.contains(ConfigAction::EnsureDispatcher) && !next_parallel.0 && !(!prev_only && next_only) {
        let i = choose|i: int| 0 <= i < r.len() && r[i] == ConfigAction::EnsureDispatcher;
        assert(b == a);
        assert(r[i] == ConfigAction::EnqueueAll);
    }
}

/// The answer to an unknown command: not found, naming it.
pub fn unknown_command(name: &str) -> (r: (u16, String))
    ensures
        r.0 == 404,
        r.1@ == "unknown command "@ + name@,
{
    (404, "unknown command ".to_owned().concat(name))
}

/// A command of the API, by the name a client calls it with.
#[derive(Debug, Clone, Copy, PartialEq, Eq, Structural)]
pub enum Command {
    /// `frontend_ready`, `window_immersive`, `minimize_window`.
    WindowStub,
    /// `load_config`.
    LoadConfig,
    /// `save_config`.
    SaveConfig,
    /// `calculate_cache_stats`.
    CalculateCacheStats,
    /// `clear_videos_command`.
    ClearVideosCommand,
    /// `clear_models_command`.
    ClearModelsCommand,
    /// `clear_all`.
    ClearAll,
    /// `load_profiles`.
    LoadProfiles,
    /// `create_profile`.
    CreateProfile,
    /// `switch_profile`.
    SwitchProfile,
    /// `delete_profile`.
    DeleteProfile,
    /// `add_score`.
    AddScore,
    /// `trigger_scan`.
    TriggerScan,
    /// `set_library_source`.
    SetLibrarySource,
    /// `clear_library_source`.
    ClearLibrarySource,
    /// `jellyfin_login`.
    JellyfinLogin,
    /// `jellyfin_ping`.
    JellyfinPing,
    /// `navidrome_login`.
    NavidromeLogin,
    /// `navidrome_ping`.
    NavidromePing,
    /// `plex_begin_pin`.
    PlexBeginPin,
    /// `plex_poll_pin`.
    PlexPollPin,
    /// `plex_manual_login`.
    PlexManualLogin,
    /// `plex_ping`.
    PlexPing,
    /// `parallel_analysis_ping`.
    ParallelAnalysisPing,
    /// `load_songs`.
    LoadSongs,
    /// `load_songs_by_hashes`.
    LoadSongsByHashes,
    /// `load_song_by_path`.
    LoadSongByPath,
    /// `load_songs_meta`.
    LoadSongsMeta,
    /// `load_analysis_queue`.
    LoadAnalysisQueue,
    /// `load_video_queue`.
    LoadVideoQueue,
    /// `load_library_menu_items`.
    LoadLibraryMenuItems,
    /// `enqueue_one`.
    EnqueueOne,
    /// `enqueue_all`.
    EnqueueAll,
    /// `delete_song_cache`.
    DeleteSongCache,
    /// `reanalyze_transcript`.
    ReanalyzeTranscript,
    /// `reanalyze_full`.
    ReanalyzeFull,
    /// `realign`.
    Realign,
    /// `reanalyze_force_transcribe`.
    ReanalyzeForceTranscribe,
    /// `set_song_language`.
    SetSongLanguage,
    /// `reanalyze_all_full`.
    ReanalyzeAllFull,
    /// `reanalyze_all_transcript`.
    ReanalyzeAllTranscript,
    /// `reanalyze_all_force_transcribe`.
    ReanalyzeAllForceTranscribe,
    /// `realign_all`.
    RealignAll,
    /// `refresh_metadata`.
    RefreshMetadata,
    /// `refresh_metadata_all`.
    RefreshMetadataAll,
    /// `remove_from_queue_one`.
    RemoveFromQueueOne,
    /// `remove_from_queue_all`.
    RemoveFromQueueAll,
    /// `acknowledge_analysis_failures`.
    AcknowledgeAnalysisFailures,
    /// `shift_key`.
    ShiftKey,
    /// `shift_tempo`.
    ShiftTempo,
    /// `load_lyrics`.
    LoadLyrics,
    /// `search_lrclib_lyrics`.
    SearchLrclibLyrics,
    /// `find_music_video`.
    FindMusicVideo,
    /// `download_youtube_video`.
    DownloadYoutubeVideo,
    /// `detect_video_sync_offset`.
    DetectVideoSyncOffset,
    /// `save_lyrics`.
    SaveLyrics,
    /// `provide_lrc`.
    ProvideLrc,
    /// `apply_timed_lyrics`.
    ApplyTimedLyrics,
    /// `load_transcript`.
    LoadTranscript,
    /// `get_audio_paths`.
    GetAudioPaths,
    /// `ensure_mp3_stems`.
    EnsureMp3Stems,
    /// `ensure_playable_source_video`.
    EnsurePlayableSourceVideo,
    /// `fetch_pixabay_videos`.
    FetchPixabayVideos,
    /// `download_all_pixabay_videos`.
    DownloadAllPixabayVideos,
    /// `get_background_video_count`.
    GetBackgroundVideoCount,
    /// `get_background_reel_count`.
    GetBackgroundReelCount,
    /// `build_background_reels`.
    BuildBackgroundReels,
    /// `render_karaoke_video`.
    RenderKaraokeVideo,
    /// `force_rerender_karaoke_video`.
    ForceRerenderKaraokeVideo,
    /// `fetch_youtube_karaoke_video`.
    FetchYoutubeKaraokeVideo,
    /// `force_fetch_youtube_karaoke_video`.
    ForceFetchYoutubeKaraokeVideo,
    /// `render_karaoke_video_all`.
    RenderKaraokeVideoAll,
    /// `force_rerender_karaoke_video_all`.
    ForceRerenderKaraokeVideoAll,
    /// `fetch_youtube_karaoke_video_all`.
    FetchYoutubeKaraokeVideoAll,
    /// `is_ready`.
    IsReady,
    /// `trigger_setup`.
    TriggerSetup,
    /// `list_microphones`.
    ListMicrophones,
    /// `start_mic_capture`, `stop_mic_capture`.
    MicCapture,
}

/// The command called `name`, if there is one.
pub open spec fn command_named(name: Seq<char>) -> Option<Command> {
    if name == "frontend_ready"@ || name == "window_immersive"@ || name == "minimize_window"@ {
        Some(Command::WindowStub)
    } else if name == "load_config"@ {
        Some(Command::LoadConfig)
    } else if name == "save_config"@ {
        Some(Command::SaveConfig)
    } else if name == "calculate_cache_stats"@ {
        Some(Command::CalculateCacheStats)
    } else if name == "clear_videos_command"@ {
        Some(Command::ClearVideosCommand)
    } else if name == "clear_models_command"@ {
        Some(Command::ClearModelsCommand)
    } else if name == "clear_all"@ {
        Some(Command::ClearAll)
    } else if name == "load_profiles"@ {
        Some(Command::LoadProfiles)
    } else if name == "create_profile"@ {
        Some(Command::CreateProfile)
    } else if name == "switch_profile"@ {
        Some(Command::SwitchProfile)
    } else if name == "delete_profile"@ {
        Some(Command::DeleteProfile)
    } else if name == "add_score"@ {
        Some(Command::AddScore)
    } else if name == "trigger_scan"@ {
        Some(Command::TriggerScan)
    } else if name == "set_library_source"@ {
        Some(Command::SetLibrarySource)
    } else if name == "clear_library_source"@ {
        Some(Command::ClearLibrarySource)
    } else if name == "jellyfin_login"@ {
        Some(Command::JellyfinLogin)
    } else if name == "jellyfin_ping"@ {
        Some(Command::JellyfinPing)
    } else if name == "navidrome_login"@ {
        Some(Command::NavidromeLogin)
    } else if name == "navidrome_ping"@ {
        Some(Command::NavidromePing)
    } else if name == "plex_begin_pin"@ {
        Some(Command::PlexBeginPin)
    } else if name == "plex_poll_pin"@ {
        Some(Command::PlexPollPin)
    } else if name == "plex_manual_login"@ {
        Some(Command::PlexManualLogin)
    } else if name == "plex_ping"@ {
        Some(Command::PlexPing)
    } else if name == "parallel_analysis_ping"@ {
        Some(Command::ParallelAnalysisPing)
    } else if name == "load_songs"@ {
        Some(Command::LoadSongs)
    } else if name == "load_songs_by_hashes"@ {
        Some(Command::LoadSongsByHashes)
    } else if name == "load_song_by_path"@ {
        Some(Command::LoadSongByPath)
    } else if name == "load_songs_meta"@ {
        Some(Command::LoadSongsMeta)
    } else if name == "load_analysis_queue"@ {
        Some(Command::LoadAnalysisQueue)
    } else if name == "load_video_queue"@ {
        Some(Command::LoadVideoQueue)
    } else if name == "load_library_menu_items"@ {
        Some(Command::LoadLibraryMenuItems)
    } else if name == "enqueue_one"@ {
        Some(Command::EnqueueOne)
    } else if name == "enqueue_all"@ {
        Some(Command::EnqueueAll)
    } else if name == "delete_song_cache"@ {
        Some(Command::DeleteSongCache)
    } else if name == "reanalyze_transcript"@ {
        Some(Command::ReanalyzeTranscript)
    } else if name == "reanalyze_full"@ {
        Some(Command::ReanalyzeFull)
    } else if name == "realign"@ {
        Some(Command::Realign)
    } else if name == "reanalyze_force_transcribe"@ {
        Some(Command::ReanalyzeForceTranscribe)
    } else if name == "set_song_language"@ {
        Some(Command::SetSongLanguage)
    } else if name == "reanalyze_all_full"@ {
        Some(Command::ReanalyzeAllFull)
    } else if name == "reanalyze_all_transcript"@ {
        Some(Command::ReanalyzeAllTranscript)
    } else if name == "reanalyze_all_force_transcribe"@ {
        Some(Command::ReanalyzeAllForceTranscribe)
    } else if name == "realign_all"@ {
        Some(Command::RealignAll)
    } else if name == "refresh_metadata"@ {
        Some(Command::RefreshMetadata)
    } else if name == "refresh_metadata_all"@ {
        Some(Command::RefreshMetadataAll)
    } else if name == "remove_from_queue_one"@ {
        Some(Command::RemoveFromQueueOne)
    } else if name == "remove_from_queue_all"@ {
        Some(Command::RemoveFromQueueAll)
    } else if name == "acknowledge_analysis_failures"@ {
        Some(Command::AcknowledgeAnalysisFailures)
    } else if name == "shift_key"@ {
        Some(Command::ShiftKey)
    } else if name == "shift_tempo"@ {
        Some(Command::ShiftTempo)
    } else if name == "load_lyrics"@ {
        Some(Command::LoadLyrics)
    } else if name == "search_lrclib_lyrics"@ {
        Some(Command::SearchLrclibLyrics)
    } else if name == "find_music_video"@ {
        Some(Command::FindMusicVideo)
    } else if name == "download_youtube_video"@ {
        Some(Command::DownloadYoutubeVideo)
    } else if name == "detect_video_sync_offset"@ {
        Some(Command::DetectVideoSyncOffset)
    } else if name == "save_lyrics"@ {
        Some(Command::SaveLyrics)
    } else if name == "provide_lrc"@ {
        Some(Command::ProvideLrc)
    } else if name == "apply_timed_lyrics"@ {
        Some(Command::ApplyTimedLyrics)
    } else if name == "load_transcript"@ {
        Some(Command::LoadTranscript)
    } else if name == "get_audio_paths"@ {
        Some(Command::GetAudioPaths)
    } else if name == "ensure_mp3_stems"@ {
        Some(Command::EnsureMp3Stems)
    } else if name == "ensure_playable_source_video"@ {
        Some(Command::EnsurePlayableSourceVideo)
    } else if name == "fetch_pixabay_videos"@ {
        Some(Command::FetchPixabayVideos)
    } else if name == "download_all_pixabay_videos"@ {
        Some(Command::DownloadAllPixabayVideos)
    } else if name == "get_background_video_count"@ {
        Some(Command::GetBackgroundVideoCount)
    } else if name == "get_background_reel_count"@ {
        Some(Command::GetBackgroundReelCount)
    } else if name == "build_background_reels"@ {
        Some(Command::BuildBackgroundReels)
    } else if name == "render_karaoke_video"@ {
        Some(Command::RenderKaraokeVideo)
    } else if name == "force_rerender_karaoke_video"@ {
        Some(Command::ForceRerenderKaraokeVideo)
    } else if name == "fetch_youtube_karaoke_video"@ {
        Some(Command::FetchYoutubeKaraokeVideo)
    } else if name == "force_fetch_youtube_karaoke_video"@ {
        Some(Command::ForceFetchYoutubeKaraokeVideo)
    } else if name == "render_karaoke_video_all"@ {
        Some(Command::RenderKaraokeVideoAll)
    } else if name == "force_rerender_karaoke_video_all"@ {
        Some(Command::ForceRerenderKaraokeVideoAll)
    } else if name == "fetch_youtube_karaoke_video_all"@ {
        Some(Command::FetchYoutubeKaraokeVideoAll)
    } else if name == "is_ready"@ {
        Some(Command::IsReady)
    } else if name == "trigger_setup"@ {
        Some(Command::TriggerSetup)
    } else if name == "list_microphones"@ {
        Some(Command::ListMicrophones)
    } else if name == "start_mic_capture"@ || name == "stop_mic_capture"@ {
        Some(Command::MicCapture)
    } else {
        None
    }
}

/// The name a client calls `c` by (the first of its names where it has
/// several).
pub open spec fn command_name(c: Command) -> Seq<char> {
    match c {
        Command::WindowStub => "frontend_ready"@,
        Command::LoadConfig => "load_config"@,
        Command::SaveConfig => "save_config"@,
        Command::CalculateCacheStats => "calculate_cache_stats"@,
        Command::ClearVideosCommand => "clear_videos_command"@,
        Command::ClearModelsCommand => "clear_models_command"@,
        Command::ClearAll => "clear_all"@,
        Command::LoadProfiles => "load_profiles"@,
        Command::CreateProfile => "create_profile"@,
        Command::SwitchProfile => "switch_profile"@,
        Command::DeleteProfile => "delete_profile"@,
        Command::AddScore => "add_score"@,
        Command::TriggerScan => "trigger_scan"@,
        Command::SetLibrarySource => "set_library_source"@,
        Command::ClearLibrarySource => "clear_library_source"@,
        Command::JellyfinLogin => "jellyfin_login"@,
        Command::JellyfinPing => "jellyfin_ping"@,
        Command::NavidromeLogin => "navidrome_login"@,
        Command::NavidromePing => "navidrome_ping"@,
        Command::PlexBeginPin => "plex_begin_pin"@,
        Command::PlexPollPin => "plex_poll_pin"@,
        Command::PlexManualLogin => "plex_manual_login"@,
        Command::PlexPing => "plex_ping"@,
        Command::ParallelAnalysisPing => "parallel_analysis_ping"@,
        Command::LoadSongs => "load_songs"@,
        Command::LoadSongsByHashes => "load_songs_by_hashes"@,
        Command::LoadSongByPath => "load_song_by_path"@,
        Command::LoadSongsMeta => "load_songs_meta"@,
        Command::LoadAnalysisQueue => "load_analysis_queue"@,
        Command::LoadVideoQueue => "load_video_queue"@,
        Command::LoadLibraryMenuItems => "load_library_menu_items"@,
        Command::EnqueueOne => "enqueue_one"@,
        Command::EnqueueAll => "enqueue_all"@,
        Command::DeleteSongCache => "delete_song_cache"@,
        Command::ReanalyzeTranscript => "reanalyze_transcript"@,
        Command::ReanalyzeFull => "reanalyze_full"@,
        Command::Realign => "realign"@,
        Command::ReanalyzeForceTranscribe => "reanalyze_force_transcribe"@,
        Command::SetSongLanguage => "set_song_language"@,
        Command::ReanalyzeAllFull => "reanalyze_all_full"@,
        Command::ReanalyzeAllTranscript => "reanalyze_all_transcript"@,
        Command::ReanalyzeAllForceTranscribe => "reanalyze_all_force_transcribe"@,
        Command::RealignAll => "realign_all"@,
        Command::RefreshMetadata => "refresh_metadata"@,
        Command::RefreshMetadataAll => "refresh_metadata_all"@,
        Command::RemoveFromQueueOne => "remove_from_queue_one"@,
        Command::RemoveFromQueueAll => "remove_from_queue_all"@,
        Command::AcknowledgeAnalysisFailures => "acknowledge_analysis_failures"@,
        Command::ShiftKey => "shift_key"@,
        Command::ShiftTempo => "shift_tempo"@,
        Command::LoadLyrics => "load_lyrics"@,
        Command::SearchLrclibLyrics => "search_lrclib_lyrics"@,
        Command::FindMusicVideo => "find_music_video"@,
        Command::DownloadYoutubeVideo => "download_youtube_video"@,
        Command::DetectVideoSyncOffset => "detect_video_sync_offset"@,
        Command::SaveLyrics => "save_lyrics"@,
        Command::ProvideLrc => "provide_lrc"@,
        Command::ApplyTimedLyrics => "apply_timed_lyrics"@,
        Command::LoadTranscript => "load_transcript"@,
        Command::GetAudioPaths => "get_audio_paths"@,
        Command::EnsureMp3Stems => "ensure_mp3_stems"@,
        Command::EnsurePlayableSourceVideo => "ensure_playable_source_video"@,
        Command::FetchPixabayVideos => "fetch_pixabay_videos"@,
        Command::DownloadAllPixabayVideos => "download_all_pixabay_videos"@,
        Command::GetBackgroundVideoCount => "get_background_video_count"@,
        Command::GetBackgroundReelCount => "get_background_reel_count"@,
        Command::BuildBackgroundReels => "build_background_reels"@,
        Command::RenderKaraokeVideo => "render_karaoke_video"@,
        Command::ForceRerenderKaraokeVideo => "force_rerender_karaoke_video"@,
        Command::FetchYoutubeKaraokeVideo => "fetch_youtube_karaoke_video"@,
        Command::ForceFetchYoutubeKaraokeVideo => "force_fetch_youtube_karaoke_video"@,
        Command::RenderKaraokeVideoAll => "render_karaoke_video_all"@,
        Command::ForceRerenderKaraokeVideoAll => "force_rerender_karaoke_video_all"@,
        Command::FetchYoutubeKaraokeVideoAll => "fetch_youtube_karaoke_video_all"@,
        Command::IsReady => "is_ready"@,
        Command::TriggerSetup => "trigger_setup"@,
        Command::ListMicrophones => "list_microphones"@,
        Command::MicCapture => "start_mic_capture"@,
    }
}

/// `n` is one of the names of `c`: its own name, or one of the aliases the
/// API keeps for the window stub and the microphone capture.
pub open spec fn names_command(n: Seq<char>, c: Command) -> bool {
    ||| n == command_name(c)
    ||| c == Command::WindowStub && (n == "window_immersive"@ || n == "minimize_window"@)
    ||| c == Command::MicCapture && n == "stop_mic_capture"@
}

/// A name is taken at its word: whatever command a name calls is the
/// command of that name (or the command it is an alias of), so no two
/// names call one command except the aliases.
pub proof fn lemma_command_named_by_its_name(n: Seq<char>)
    ensures
        command_named(n) matches Some(c) ==> names_command(n, c),
{
}

/// Every command answers to each of its names.
pub proof fn lemma_names_call_their_command(n: Seq<char>, c: Command)
    requires
        names_command(n, c),
    ensures
        command_named(n) == Some(c),
{
    lemma_command_names_spelled();
}

/// The spelling of the command names, as far as telling them apart needs.
proof fn lemma_command_names_spelled()
    ensures
        "frontend_ready"@.len() == 14,
        "frontend_ready"@[0] == 'f',
        "window_immersive"@.len() == 16,
        "window_immersive"@[0] == 'w',
        "minimize_window"@.len() == 15,
        "minimize_window"@[0] == 'm',
        "load_config"@.len() == 11,
        "load_config"@[0] == 'l',
        "load_config"@[5] == 'c',
        "save_config"@.len() == 11,
        "save_config"@[0] == 's',
        "save_config"@[1] == 'a',
        "save_config"@[5] == 'c',
        "calculate_cache_stats"@.len() == 21,
        "calculate_cache_stats"@[0] == 'c',
        "clear_videos_command"@.len() == 20,
        "clear_videos_command"@[0] == 'c',
        "clear_videos_command"@[6] == 'v',
        "clear_models_command"@.len() == 20,
        "clear_models_command"@[0] == 'c',
        "clear_models_command"@[6] == 'm',
        "clear_all"@.len() == 9,
        "clear_all"@[0] == 'c',
        "load_profiles"@.len() == 13,
        "load_profiles"@[0] == 'l',
        "create_profile"@.len() == 14,
        "create_profile"@[0] == 'c',
        "switch_profile"@.len() == 14,
        "switch_profile"@[0] == 's',
        "delete_profile"@.len() == 14,
        "delete_profile"@[0] == 'd',
        "add_score"@.len() == 9,
        "add_score"@[0] == 'a',
        "trigger_scan"@.len() == 12,
        "set_library_source"@.len() == 18,
        "set_library_source"@[0] == 's',
        "clear_library_source"@.len() == 20,
        "clear_library_source"@[0] == 'c',
        "clear_library_source"@[6] == 'l',
        "jellyfin_login"@.len() == 14,
        "jellyfin_login"@[0] == 'j',
        "jellyfin_ping"@.len() == 13,
        "jellyfin_ping"@[0] == 'j',
        "navidrome_login"@.len() == 15,
        "navidrome_login"@[0] == 'n',
        "navidrome_ping"@.len() == 14,
        "navidrome_ping"@[0] == 'n',
        "plex_begin_pin"@.len() == 14,
        "plex_begin_pin"@[0] == 'p',
        "plex_poll_pin"@.len() == 13,
        "plex_poll_pin"@[0] == 'p',
        "plex_manual_login"@.len() == 17,
        "plex_manual_login"@[0] == 'p',
        "plex_ping"@.len() == 9,
        "plex_ping"@[0] == 'p',
        "parallel_analysis_ping"@.len() == 22,
        "parallel_analysis_ping"@[0] == 'p',
        "load_songs"@.len() == 10,
        "load_songs_by_hashes"@.len() == 20,
        "load_songs_by_hashes"@[0] == 'l',
        "load_song_by_path"@.len() == 17,
        "load_song_by_path"@[0] == 'l',
        "load_songs_meta"@.len() == 15,
        "load_songs_meta"@[0] == 'l',
        "load_songs_meta"@[5] == 's',
        "load_analysis_queue"@.len() == 19,
        "load_video_queue"@.len() == 16,
        "load_video_queue"@[0] == 'l',
        "load_video_queue"@[1] == 'o',
        "load_library_menu_items"@.len() == 23,
        "enqueue_one"@.len() == 11,
        "enqueue_one"@[0] == 'e',
        "enqueue_one"@[8] == 'o',
        "enqueue_all"@.len() == 11,
        "enqueue_all"@[0] == 'e',
        "enqueue_all"@[8] == 'a',
        "delete_song_cache"@.len() == 17,
        "delete_song_cache"@[0] == 'd',
        "reanalyze_transcript"@.len() == 20,
        "reanalyze_transcript"@[0] == 'r',
        "reanalyze_transcript"@[2] == 'a',
        "reanalyze_full"@.len() == 14,
        "reanalyze_full"@[0] == 'r',
        "realign"@.len() == 7,
        "reanalyze_force_transcribe"@.len() == 26,
        "reanalyze_force_transcribe"@[0] == 'r',
        "set_song_language"@.len() == 17,
        "set_song_language"@[0] == 's',
        "set_song_language"@[1] == 'e',
        "reanalyze_all_full"@.len() == 18,
        "reanalyze_all_full"@[0] == 'r',
        "reanalyze_all_transcript"@.len() == 24,
        "reanalyze_all_transcript"@[0] == 'r',
        "reanalyze_all_transcript"@[2] == 'a',
        "reanalyze_all_force_transcribe"@.len() == 30,
        "realign_all"@.len() == 11,
        "realign_all"@[0] == 'r',
        "refresh_metadata"@.len() == 16,
        "refresh_metadata"@[0] == 'r',
        "refresh_metadata_all"@.len() == 20,
        "refresh_metadata_all"@[0] == 'r',
        "refresh_metadata_all"@[2] == 'f',
        "remove_from_queue_one"@.len() == 21,
        "remove_from_queue_one"@[0] == 'r',
        "remove_from_queue_one"@[18] == 'o',
        "remove_from_queue_all"@.len() == 21,
        "remove_from_queue_all"@[0] == 'r',
        "remove_from_queue_all"@[18] == 'a',
        "acknowledge_analysis_failures"@.len() == 29,
        "shift_key"@.len() == 9,
        "shift_key"@[0] == 's',
        "shift_tempo"@.len() == 11,
        "shift_tempo"@[0] == 's',
        "shift_tempo"@[1] == 'h',
        "load_lyrics"@.len() == 11,
        "load_lyrics"@[0] == 'l',
        "load_lyrics"@[5] == 'l',
        "search_lrclib_lyrics"@.len() == 20,
        "search_lrclib_lyrics"@[0] == 's',
        "find_music_video"@.len() == 16,
        "find_music_video"@[0] == 'f',
        "download_youtube_video"@.len() == 22,
        "download_youtube_video"@[0] == 'd',
        "detect_video_sync_offset"@.len() == 24,
        "detect_video_sync_offset"@[0] == 'd',
        "save_lyrics"@.len() == 11,
        "save_lyrics"@[0] == 's',
        "save_lyrics"@[1] == 'a',
        "save_lyrics"@[5] == 'l',
        "provide_lrc"@.len() == 11,
        "provide_lrc"@[0] == 'p',
        "apply_timed_lyrics"@.len() == 18,
        "apply_timed_lyrics"@[0] == 'a',
        "load_transcript"@.len() == 15,
        "load_transcript"@[0] == 'l',
        "load_transcript"@[5] == 't',
        "get_audio_paths"@.len() == 15,
        "get_audio_paths"@[0] == 'g',
        "ensure_mp3_stems"@.len() == 16,
        "ensure_mp3_stems"@[0] == 'e',
        "ensure_playable_source_video"@.len() == 28,
        "ensure_playable_source_video"@[0] == 'e',
        "fetch_pixabay_videos"@.len() == 20,
        "fetch_pixabay_videos"@[0] == 'f',
        "download_all_pixabay_videos"@.len() == 27,
        "download_all_pixabay_videos"@[0] == 'd',
        "get_background_video_count"@.len() == 26,
        "get_background_video_count"@[0] == 'g',
        "get_background_reel_count"@.len() == 25,
        "build_background_reels"@.len() == 22,
        "build_background_reels"@[0] == 'b',
        "render_karaoke_video"@.len() == 20,
        "render_karaoke_video"@[0] == 'r',
        "render_karaoke_video"@[2] == 'n',
        "force_rerender_karaoke_video"@.len() == 28,
        "force_rerender_karaoke_video"@[0] == 'f',
        "fetch_youtube_karaoke_video"@.len() == 27,
        "fetch_youtube_karaoke_video"@[0] == 'f',
        "force_fetch_youtube_karaoke_video"@.len() == 33,
        "render_karaoke_video_all"@.len() == 24,
        "render_karaoke_video_all"@[0] == 'r',
        "render_karaoke_video_all"@[2] == 'n',
        "force_rerender_karaoke_video_all"@.len() == 32,
        "fetch_youtube_karaoke_video_all"@.len() == 31,
        "is_ready"@.len() == 8,
        "trigger_setup"@.len() == 13,
        "trigger_setup"@[0] == 't',
        "list_microphones"@.len() == 16,
        "list_microphones"@[0] == 'l',
        "list_microphones"@[1] == 'i',
        "start_mic_capture"@.len() == 17,
        "start_mic_capture"@[0] == 's',
        "start_mic_capture"@[1] == 't',
        "stop_mic_capture"@.len() == 16,
        "stop_mic_capture"@[0] == 's',
{
    reveal_strlit("frontend_ready");
    reveal_strlit("window_immersive");
    reveal_strlit("minimize_window");
    reveal_strlit("load_config");
    reveal_strlit("save_config");
    reveal_strlit("calculate_cache_stats");
    reveal_strlit("clear_videos_command");
    reveal_strlit("clear_models_command");
    reveal_strlit("clear_all");
    reveal_strlit("load_profiles");
    reveal_strlit("create_profile");
    reveal_strlit("switch_profile");
    reveal_strlit("delete_profile");
    reveal_strlit("add_score");
    reveal_strlit("trigger_scan");
    reveal_strlit("set_library_source");
    reveal_strlit("clear_library_source");
    reveal_strlit("jellyfin_login");
    reveal_strlit("jellyfin_ping");
    reveal_strlit("navidrome_login");
    reveal_strlit("navidrome_ping");
    reveal_strlit("plex_begin_pin");
    reveal_strlit("plex_poll_pin");
    reveal_strlit("plex_manual_login");
    reveal_strlit("plex_ping");
    reveal_strlit("parallel_analysis_ping");
    reveal_strlit("load_songs");
    reveal_strlit("load_songs_by_hashes");
    reveal_strlit("load_song_by_path");
    reveal_strlit("load_songs_meta");
    reveal_strlit("load_analysis_queue");
    reveal_strlit("load_video_queue");
    reveal_strlit("load_library_menu_items");
    reveal_strlit("enqueue_one");
    reveal_strlit("enqueue_all");
    reveal_strlit("delete_song_cache");
    reveal_strlit("reanalyze_transcript");
    reveal_strlit("reanalyze_full");
    reveal_strlit("realign");
    reveal_strlit("reanalyze_force_transcribe");
    reveal_strlit("set_song_language");
    reveal_strlit("reanalyze_all_full");
    reveal_strlit("reanalyze_all_transcript");
    reveal_strlit("reanalyze_all_force_transcribe");
    reveal_strlit("realign_all");
    reveal_strlit("refresh_metadata");
    reveal_strlit("refresh_metadata_all");
    reveal_strlit("remove_from_queue_one");
    reveal_strlit("remove_from_queue_all");
    reveal_strlit("acknowledge_analysis_failures");
    reveal_strlit("shift_key");
    reveal_strlit("shift_tempo");
    reveal_strlit("load_lyrics");
    reveal_strlit("search_lrclib_lyrics");
    reveal_strlit("find_music_video");
    reveal_strlit("download_youtube_video");
    reveal_strlit("detect_video_sync_offset");
    reveal_strlit("save_lyrics");
    reveal_strlit("provide_lrc");
    reveal_strlit("apply_timed_lyrics");
    reveal_strlit("load_transcript");
    reveal_strlit("get_audio_paths");
    reveal_strlit("ensure_mp3_stems");
    reveal_strlit("ensure_playable_source_video");
    reveal_strlit("fetch_pixabay_videos");
    reveal_strlit("download_all_pixabay_videos");
    reveal_strlit("get_background_video_count");
    reveal_strlit("get_background_reel_count");
    reveal_strlit("build_background_reels");
    reveal_strlit("render_karaoke_video");
    reveal_strlit("force_rerender_karaoke_video");
    reveal_strlit("fetch_youtube_karaoke_video");
    reveal_strlit("force_fetch_youtube_karaoke_video");
    reveal_strlit("render_karaoke_video_all");
    reveal_strlit("force_rerender_karaoke_video_all");
    reveal_strlit("fetch_youtube_karaoke_video_all");
    reveal_strlit("is_ready");
    reveal_strlit("trigger_setup");
    reveal_strlit("list_microphones");
    reveal_strlit("start_mic_capture");
    reveal_strlit("stop_mic_capture");
}

/// The command called `name`, if there is one.
pub fn parse_command(name: &str) -> (r: Option<Command>)
    ensures
        r == command_named(name@),
{
    if str_equals(name, "frontend_ready") || str_equals(name, "window_immersive") || str_equals(name, "minimize_window") {
        return Some(Command::WindowStub);
    }
    if str_equals(name, "load_config") {
        return Some(Command::LoadConfig);
    }
    if str_equals(name, "save_config") {
        return Some(Command::SaveConfig);
    }
    if str_equals(name, "calculate_cache_stats") {
        return Some(Command::CalculateCacheStats);
    }
    if str_equals(name, "clear_videos_command") {
        return Some(Command::ClearVideosCommand);
    }
    if str_equals(name, "clear_models_command") {
        return Some(Command::ClearModelsCommand);
    }
    if str_equals(name, "clear_all") {
        return Some(Command::ClearAll);
    }
    if str_equals(name, "load_profiles") {
        return Some(Command::LoadProfiles);
    }
    if str_equals(name, "create_profile") {
        return Some(Command::CreateProfile);
    }
    if str_equals(name, "switch_profile") {
        return Some(Command::SwitchProfile);
    }
    if str_equals(name, "delete_profile") {
        return Some(Command::DeleteProfile);
    }
    if str_equals(name, "add_score") {
        return Some(Command::AddScore);
    }
    if str_equals(name, "trigger_scan") {
        return Some(Command::TriggerScan);
    }
    if str_equals(name, "set_library_source") {
        return Some(Command::SetLibrarySource);
    }
    if str_equals(name, "clear_library_source") {
        return Some(Command::ClearLibrarySource);
    }
    if str_equals(name, "jellyfin_login") {
        return Some(Command::JellyfinLogin);
    }
    if str_equals(name, "jellyfin_ping") {
        return Some(Command::JellyfinPing);
    }
    if str_equals(name, "navidrome_login") {
        return Some(Command::NavidromeLogin);
    }
    if str_equals(name, "navidrome_ping") {
        return Some(Command::NavidromePing);
    }
    if str_equals(name, "plex_begin_pin") {
        return Some(Command::PlexBeginPin);
    }
    if str_equals(name, "plex_poll_pin") {
        return Some(Command::PlexPollPin);
    }
    if str_equals(name, "plex_manual_login") {
        return Some(Command::PlexManualLogin);
    }
    if str_equals(name, "plex_ping") {
        return Some(Command::PlexPing);
    }
    if str_equals(name, "parallel_analysis_ping") {
        return Some(Command::ParallelAnalysisPing);
    }
    if str_equals(name, "load_songs") {
        return Some(Command::LoadSongs);
    }
    if str_equals(name, "load_songs_by_hashes") {
        return Some(Command::LoadSongsByHashes);
    }
    if str_equals(name, "load_song_by_path") {
        return Some(Command::LoadSongByPath);
    }
    if str_equals(name, "load_songs_meta") {
        return Some(Command::LoadSongsMeta);
    }
    if str_equals(name, "load_analysis_queue") {
        return Some(Command::LoadAnalysisQueue);
    }
    if str_equals(name, "load_video_queue") {
        return Some(Command::LoadVideoQueue);
    }
    if str_equals(name, "load_library_menu_items") {
        return Some(Command::LoadLibraryMenuItems);
    }
    if str_equals(name, "enqueue_one") {
        return Some(Command::EnqueueOne);
    }
    if str_equals(name, "enqueue_all") {
        return Some(Command::EnqueueAll);
    }
    if str_equals(name, "delete_song_cache") {
        return Some(Command::DeleteSongCache);
    }
    if str_equals(name, "reanalyze_transcript") {
        return Some(Command::ReanalyzeTranscript);
    }
    if str_equals(name, "reanalyze_full") {
        return Some(Command::ReanalyzeFull);
    }
    if str_equals(name, "realign") {
        return Some(Command::Realign);
    }
    if str_equals(name, "reanalyze_force_transcribe") {
        return Some(Command::ReanalyzeForceTranscribe);
    }
    if str_equals(name, "set_song_language") {
        return Some(Command::SetSongLanguage);
    }
    if str_equals(name, "reanalyze_all_full") {
        return Some(Command::ReanalyzeAllFull);
    }
    if str_equals(name, "reanalyze_all_transcript") {
        return Some(Command::ReanalyzeAllTranscript);
    }
    if str_equals(name, "reanalyze_all_force_transcribe") {
        return Some(Command::ReanalyzeAllForceTranscribe);
    }
    if str_equals(name, "realign_all") {
        return Some(Command::RealignAll);
    }
    if str_equals(name, "refresh_metadata") {
        return Some(Command::RefreshMetadata);
    }
    if str_equals(name, "refresh_metadata_all") {
        return Some(Command::RefreshMetadataAll);
    }
    if str_equals(name, "remove_from_queue_one") {
        return Some(Command::RemoveFromQueueOne);
    }
    if str_equals(name, "remove_from_queue_all") {
        return Some(Command::RemoveFromQueueAll);
    }
    if str_equals(name, "acknowledge_analysis_failures") {
        return Some(Command::AcknowledgeAnalysisFailures);
    }
    if str_equals(name, "shift_key") {
        return Some(Command::ShiftKey);
    }
    if str_equals(name, "shift_tempo") {
        return Some(Command::ShiftTempo);
    }
    if str_equals(name, "load_lyrics") {
        return Some(Command::LoadLyrics);
    }
    if str_equals(name, "search_lrclib_lyrics") {
        return Some(Command::SearchLrclibLyrics);
    }
    if str_equals(name, "find_music_video") {
        return Some(Command::FindMusicVideo);
    }
    if str_equals(name, "download_youtube_video") {
        return Some(Command::DownloadYoutubeVideo);
    }
    if str_equals(name, "detect_video_sync_offset") {
        return Some(Command::DetectVideoSyncOffset);
    }
    if str_equals(name, "save_lyrics") {
        return Some(Command::SaveLyrics);
    }
    if str_equals(name, "provide_lrc") {
        return Some(Command::ProvideLrc);
    }
    if str_equals(name, "apply_timed_lyrics") {
        return Some(Command::ApplyTimedLyrics);
    }
    if str_equals(name, "load_transcript") {
        return Some(Command::LoadTranscript);
    }
    if str_equals(name, "get_audio_paths") {
        return Some(Command::GetAudioPaths);
    }
    if str_equals(name, "ensure_mp3_stems") {
        return Some(Command::EnsureMp3Stems);
    }
    if str_equals(name, "ensure_playable_source_video") {
        return Some(Command::EnsurePlayableSourceVideo);
    }
    if str_equals(name, "fetch_pixabay_videos") {
        return Some(Command::FetchPixabayVideos);
    }
    if str_equals(name, "download_all_pixabay_videos") {
        return Some(Command::DownloadAllPixabayVideos);
    }
    if str_equals(name, "get_background_video_count") {
        return Some(Command::GetBackgroundVideoCount);
    }
    if str_equals(name, "get_background_reel_count") {
        return Some(Command::GetBackgroundReelCount);
    }
    if str_equals(name, "build_background_reels") {
        return Some(Command::BuildBackgroundReels);
    }
    if str_equals(name, "render_karaoke_video") {
        return Some(Command::RenderKaraokeVideo);
    }
    if str_equals(name, "force_rerender_karaoke_video") {
        return Some(Command::ForceRerenderKaraokeVideo);
    }
    if str_equals(name, "fetch_youtube_karaoke_video") {
        return Some(Command::FetchYoutubeKaraokeVideo);
    }
    if str_equals(name, "force_fetch_youtube_karaoke_video") {
        return Some(Command::ForceFetchYoutubeKaraokeVideo);
    }
    if str_equals(name, "render_karaoke_video_all") {
        return Some(Command::RenderKaraokeVideoAll);
    }
    if str_equals(name, "force_rerender_karaoke_video_all") {
        return Some(Command::ForceRerenderKaraokeVideoAll);
    }
    if str_equals(name, "fetch_youtube_karaoke_video_all") {
        return Some(Command::FetchYoutubeKaraokeVideoAll);
    }
    if str_equals(name, "is_ready") {
        return Some(Command::IsReady);
    }
    if str_equals(name, "trigger_setup") {
        return Some(Command::TriggerSetup);
    }
    if str_equals(name, "list_microphones") {
        return Some(Command::ListMicrophones);
    }
    if str_equals(name, "start_mic_capture") || str_equals(name, "stop_mic_capture") {
        return Some(Command::MicCapture);
    }
    None
}

/// How the API answers a call of `name`: the command to run, or, for a name
/// it does not know, not found (see `unknown_command`).
pub fn route_command(name: &str) -> (r: Result<Command, (u16, String)>)
    ensures
        match command_named(name@) {
            Some(c) => r == Ok::<Command, (u16, String)>(c),
            None => r matches Err(e) && e.0 == 404 && e.1@ == "unknown command "@ + name@,
        },
{
    match parse_command(name) {
        Some(c) => Ok(c),
        None => Err(unknown_command(name)),
    }
}

} // verus!
