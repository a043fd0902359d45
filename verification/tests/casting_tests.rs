use app_core::casting::{
    cast_media, cast_request_check, content_id, custom_receiver_check, display_query,
    media_load_result, next_request_id, render_status_page, run_cast, server_base_url,
    server_port, AlternativeSong, CastEvent, CastFailure, CastNext, CastRun, CastSong,
    RequestIds, STATUS_PAGE_HEAD,
};

#[test]
fn server_port_reads_the_bind_address() {
    assert_eq!(server_port(None), 8080);
    assert_eq!(server_port(Some("0.0.0.0:9000")), 9000);
    assert_eq!(server_port(Some("9000")), 9000);
    assert_eq!(server_port(Some("[::1]:7000")), 7000);
    assert_eq!(server_port(Some("host:abc")), 8080);
    assert_eq!(server_port(Some("host:")), 8080);
    assert_eq!(server_port(Some("host:70000")), 8080);
}

#[test]
fn server_base_url_prefers_the_configured_one() {
    assert_eq!(
        server_base_url(Some("http://nas.local:8080//"), Some("10.0.0.2"), 1),
        Ok("http://nas.local:8080".to_string())
    );
    assert_eq!(
        server_base_url(None, Some("192.168.1.2"), 8080),
        Ok("http://192.168.1.2:8080".to_string())
    );
    assert_eq!(
        server_base_url(None, None, 8080),
        Err("could not auto-detect this server's LAN IP; set chromecast.server_base_url in config.json".to_string())
    );
}

#[test]
fn cast_media_picks_video_or_song_file() {
    assert_eq!(
        cast_media(true, "/music/a.mp3", "/cache/v.mp4"),
        ("/cache/v.mp4".to_string(), "video/mp4".to_string())
    );
    assert_eq!(
        cast_media(false, "/music/a.mp3", "/cache/v.mp4"),
        ("/music/a.mp3".to_string(), "audio/mpeg".to_string())
    );
    let (_, unknown) = cast_media(false, "/music/a.unknownext", "");
    assert_eq!(unknown, "application/octet-stream");
}

#[test]
fn content_id_encodes_the_media_path() {
    assert_eq!(
        content_id("http://h:8080", "/music/a b.mp3"),
        "http://h:8080/api/asset?path=%2Fmusic%2Fa%20b.mp3"
    );
}

#[test]
fn forced_custom_receiver_needs_an_app_id() {
    assert_eq!(
        custom_receiver_check(true, false),
        Err("force_custom_receiver requested but chromecast.receiver_app_id is not set in config.json".to_string())
    );
    assert_eq!(custom_receiver_check(true, true), Ok(()));
    assert_eq!(custom_receiver_check(false, false), Ok(()));
}

#[test]
fn media_load_fails_only_on_idle_error() {
    assert!(media_load_result(Some((true, true))).is_err());
    assert_eq!(media_load_result(Some((true, false))), Ok(()));
    assert_eq!(media_load_result(Some((false, true))), Ok(()));
    assert_eq!(media_load_result(None), Ok(()));
}

#[test]
fn status_page_escapes_query_and_id() {
    let page = render_status_page("id&1", "<b>abba</b>");
    assert!(page.starts_with(STATUS_PAGE_HEAD));
    assert!(page.starts_with("<!doctype html>"));
    assert!(page.contains("Searching for &ldquo;&lt;b&gt;abba&lt;/b&gt;&rdquo;"));
    assert!(page.contains("const requestId = \"id&amp;1\";"));
    assert!(page.contains("@keyframes spin { to { transform: rotate(360deg); } }"));
    assert!(page.ends_with("</html>\n"));
}

#[test]
fn cast_request_needs_query_or_hash() {
    assert_eq!(
        cast_request_check(&None, &None),
        Err("must provide either q or file_hash".to_string())
    );
    assert_eq!(cast_request_check(&Some("x".into()), &None), Ok(()));
    assert_eq!(cast_request_check(&None, &Some("h".into())), Ok(()));
}

#[test]
fn display_query_names_what_is_searched() {
    assert_eq!(display_query(&Some("abba".into()), &Some("h".into())), "abba");
    assert_eq!(display_query(&None, &Some("h1".into())), "song h1");
    assert_eq!(display_query(&None, &None), "");
}

#[test]
fn request_ids_are_hex_time_and_counter() {
    let mut ids = RequestIds { counter: 10 };
    assert_eq!(next_request_id(&mut ids, 255), "ff-a");
    assert_eq!(ids.counter, 11);
    let mut wrap = RequestIds { counter: u64::MAX };
    assert_eq!(next_request_id(&mut wrap, 0), "0-ffffffffffffffff");
    assert_eq!(wrap.counter, 0);
}

fn song(analyzed: bool) -> CastSong {
    CastSong {
        file_hash: "h1".into(),
        title: "Dancing Queen".into(),
        artist: "ABBA".into(),
        is_analyzed: analyzed,
    }
}

#[test]
fn cast_by_query_reports_each_step() {
    let (mut run, step) = CastRun::new(Some("abba".into()), None);
    assert_eq!(step.progress[0].stage, "matching");
    assert_eq!(step.progress[0].message, "Looking for a song matching \"abba\"...");
    assert!(matches!(step.next, CastNext::LoadConfig));

    let step = run_cast(&mut run, CastEvent::ConfigLoaded { has_chromecast: true, karaoke_video: true });
    assert!(matches!(step.next, CastNext::FindBestMatch(ref q) if q == "abba"));

    let step = run_cast(&mut run, CastEvent::SongFound(Some(song(true))));
    let stages: Vec<&str> = step.progress.iter().map(|p| p.stage.as_str()).collect();
    assert_eq!(stages, vec!["matched", "rendering", "casting"]);
    assert_eq!(step.progress[0].message, "Found \"Dancing Queen\" by \"ABBA\"");
    assert!(matches!(step.next, CastNext::Cast));

    let step = run_cast(&mut run, CastEvent::Cast(Ok(())));
    assert_eq!(step.progress[0].stage, "done");
    assert_eq!(step.progress[0].message, "Now playing \"Dancing Queen\" by \"ABBA\"");
    match step.next {
        CastNext::Finish(Ok((h, t, a))) => {
            assert_eq!(h, "h1");
            assert_eq!(t, "Dancing Queen");
            assert_eq!(a, "ABBA");
        }
        _ => panic!("expected a finished cast"),
    }
}

#[test]
fn cast_without_chromecast_is_a_bad_request() {
    let (mut run, step) = CastRun::new(None, Some("h1".into()));
    assert_eq!(step.progress[0].message, "Looking up song h1...");
    let step = run_cast(&mut run, CastEvent::ConfigLoaded { has_chromecast: false, karaoke_video: false });
    assert_eq!(step.progress[0].stage, "error");
    assert!(matches!(step.next,
        CastNext::Finish(Err(CastFailure::BadRequest(ref m))) if m == "no chromecast configured in config.json"));
}

#[test]
fn cast_of_unknown_hash_is_not_found() {
    let (mut run, _) = CastRun::new(None, Some("h9".into()));
    let step = run_cast(&mut run, CastEvent::ConfigLoaded { has_chromecast: true, karaoke_video: false });
    assert!(matches!(step.next, CastNext::FindSongByHash(ref h) if h == "h9"));
    let step = run_cast(&mut run, CastEvent::SongFound(None));
    assert_eq!(step.progress[0].stage, "no_match");
    assert!(matches!(step.next,
        CastNext::Finish(Err(CastFailure::NotFound(ref m))) if m == "no song found for file_hash \"h9\""));
}

#[test]
fn unanalyzed_song_offers_alternatives() {
    let (mut run, _) = CastRun::new(Some("queen".into()), None);
    run_cast(&mut run, CastEvent::ConfigLoaded { has_chromecast: true, karaoke_video: false });
    let step = run_cast(&mut run, CastEvent::SongFound(Some(song(false))));
    assert!(step.progress.is_empty());
    assert!(matches!(step.next, CastNext::FindAlternatives(ref q) if q == "queen"));
    let alts = vec![AlternativeSong { file_hash: "h2".into(), title: "SOS".into(), artist: "ABBA".into() }];
    let step = run_cast(&mut run, CastEvent::AlternativesFound(alts));
    assert_eq!(step.progress.len(), 1);
    assert_eq!(step.progress[0].stage, "not_analyzed");
    match step.next {
        CastNext::Finish(Err(CastFailure::NotAnalyzed { message, alternatives })) => {
            assert_eq!(
                message,
                "\"Dancing Queen\" by \"ABBA\" hasn't been analyzed yet -- analyze it from the library before casting"
            );
            assert_eq!(alternatives.len(), 1);
            assert_eq!(alternatives[0].file_hash, "h2");
        }
        _ => panic!("expected not-analyzed"),
    }
}

#[test]
fn failed_cast_is_an_internal_error() {
    let (mut run, _) = CastRun::new(Some("x".into()), None);
    run_cast(&mut run, CastEvent::ConfigLoaded { has_chromecast: true, karaoke_video: false });
    let step = run_cast(&mut run, CastEvent::SongFound(Some(song(true))));
    assert_eq!(step.progress.len(), 2);
    let step = run_cast(&mut run, CastEvent::Cast(Err("device unreachable".into())));
    assert_eq!(step.progress[0].stage, "error");
    assert!(matches!(step.next,
        CastNext::Finish(Err(CastFailure::Internal(ref m))) if m == "device unreachable"));
}

#[test]
fn panicked_cast_task_is_reported() {
    let (mut run, _) = CastRun::new(Some("x".into()), None);
    run_cast(&mut run, CastEvent::ConfigLoaded { has_chromecast: true, karaoke_video: false });
    run_cast(&mut run, CastEvent::SongFound(Some(song(true))));
    let step = run_cast(&mut run, CastEvent::CastPanicked("boom".into()));
    assert_eq!(step.progress[0].message, "cast task panicked: boom");
}

use app_core::casting::wants_json;

#[test]
fn json_is_answered_only_when_accepted() {
    assert!(wants_json(Some("application/json")));
    assert!(wants_json(Some("text/html, application/json;q=0.9")));
    assert!(!wants_json(Some("text/html")));
    assert!(!wants_json(Some("application/jso")));
    assert!(!wants_json(None));
}
