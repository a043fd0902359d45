use app_core::lyrics::{
    anchors_if_sufficient, apply_timed_lyrics_guard, candidate_lyrics, clean_lines,
    lrclib_album, lrclib_search_url, lrclib_searchable, provide_lrc_guard,
    lines_from_lyrics_text, lrclib_candidate_order, lrclib_retry_without_album, match_synced_anchors,
    save_lyrics_and_realign,
    text_lines,
};

fn strings(v: &[&str]) -> Vec<String> {
    v.iter().map(|s| s.to_string()).collect()
}

#[test]
fn text_lines_trims_and_drops_blank_lines() {
    assert_eq!(
        text_lines("  first\r\n\n second \nthird"),
        strings(&["first", "second", "third"])
    );
    assert_eq!(text_lines(""), Vec::<String>::new());
    assert_eq!(text_lines("\n\n  \n"), Vec::<String>::new());
    assert_eq!(text_lines("only"), strings(&["only"]));
    assert_eq!(text_lines("a\rb\n"), strings(&["a\rb"]));
}

#[test]
fn text_lines_matches_std_lines() {
    for text in ["x\ny\r\nz", " a \n\tb\t\n\n", "one line\n", "\u{3000}wide\u{3000}\n"] {
        let expected: Vec<String> = text
            .lines()
            .map(|l| l.trim().to_string())
            .filter(|l| !l.is_empty())
            .collect();
        assert_eq!(text_lines(text), expected, "input {text:?}");
    }
}

#[test]
fn clean_lines_trims_edited_lines() {
    assert_eq!(
        clean_lines(&strings(&[" a ", "", "  ", "b"])),
        strings(&["a", "b"])
    );
}

#[test]
fn saving_lyrics_refuses_usdx_and_empty() {
    assert_eq!(
        save_lyrics_and_realign(true, &strings(&["a"])),
        Err("Cannot edit lyrics for USDX songs".to_string())
    );
    assert_eq!(
        save_lyrics_and_realign(false, &strings(&["  ", ""])),
        Err("Lyrics cannot be empty".to_string())
    );
    assert_eq!(
        save_lyrics_and_realign(false, &strings(&[" la la ", "", "la"])),
        Ok(strings(&["la la", "la"]))
    );
}

#[test]
fn lyrics_guards_refuse_usdx_songs() {
    assert_eq!(
        provide_lrc_guard(true),
        Err("Cannot provide lyrics for USDX songs".to_string())
    );
    assert_eq!(provide_lrc_guard(false), Ok(()));
    assert_eq!(
        apply_timed_lyrics_guard(true),
        Err("Cannot edit lyrics for USDX songs".to_string())
    );
    assert_eq!(apply_timed_lyrics_guard(false), Ok(()));
}

#[test]
fn lrclib_url_is_narrowed_to_album() {
    assert_eq!(
        lrclib_search_url("Song 2", "Blur", Some("Blur (1997)")),
        "https://lrclib.net/api/search?track_name=Song%202&artist_name=Blur&album_name=Blur%20%281997%29"
    );
}

#[test]
fn lrclib_album_ignores_unknown_albums() {
    assert_eq!(lrclib_album(""), None);
    assert_eq!(lrclib_album("Unknown Album"), None);
    assert_eq!(lrclib_album("Parklife"), Some("Parklife".to_string()));
}

#[test]
fn lrclib_needs_title_and_known_artist() {
    assert!(lrclib_searchable("Song 2", "Blur"));
    assert!(!lrclib_searchable("", "Blur"));
    assert!(!lrclib_searchable("Song 2", "Unknown Artist"));
}

#[test]
fn candidates_without_lyrics_are_dropped() {
    assert!(candidate_lyrics("", None).is_none());
    assert!(candidate_lyrics("  \n ", Some("   ".to_string())).is_none());
    let (lines, synced) = candidate_lyrics(" a \n\nb", Some("  ".to_string())).unwrap();
    assert_eq!(lines, strings(&["a", "b"]));
    assert_eq!(synced, None);
    let (lines, synced) = candidate_lyrics("", Some("[00:01.00] hi".to_string())).unwrap();
    assert!(lines.is_empty());
    assert_eq!(synced, Some("[00:01.00] hi".to_string()));
}

#[test]
fn anchors_need_a_quarter_of_the_lines() {
    assert_eq!(anchors_if_sufficient::<f64>(vec![]), None);
    let quarter = vec![Some(1.5), None, None, None];
    assert_eq!(anchors_if_sufficient(quarter.clone()), Some(quarter));
    let fifth = vec![Some(1.5), None, None, None, None];
    assert_eq!(anchors_if_sufficient(fifth), None);
    let none = vec![None::<f64>, None];
    assert_eq!(anchors_if_sufficient(none), None);
    for len in 1usize..=13 {
        for matched in 0..=len {
            let v: Vec<Option<f64>> = (0..len).map(|i| if i < matched { Some(0.0) } else { None }).collect();
            let expected = (matched as f64 / len as f64) >= 0.25;
            assert_eq!(anchors_if_sufficient(v).is_some(), expected, "{matched}/{len}");
        }
    }
}

#[test]
fn lrc_lines_win_when_any_is_not_blank() {
    let lrc = Some(vec!["  Hello ".to_string(), "   ".to_string(), "world".to_string()]);
    assert_eq!(
        lines_from_lyrics_text("[00:01.00] Hello\n[00:02.00] world", lrc),
        vec!["  Hello ".to_string(), "world".to_string()]
    );
}

#[test]
fn blank_lrc_reading_falls_back_to_plain_lines() {
    let lrc = Some(vec!["".to_string(), " \t".to_string()]);
    assert_eq!(
        lines_from_lyrics_text(" first \r\n\nsecond", lrc),
        vec!["first".to_string(), "second".to_string()]
    );
}

#[test]
fn plain_text_is_read_line_by_line() {
    assert_eq!(
        lines_from_lyrics_text("a\n  \n b \n", None),
        vec!["a".to_string(), "b".to_string()]
    );
}

#[test]
fn anchors_take_the_best_match_in_the_window_and_move_forward() {
    // Three display lines against four synced lines; threshold 50, window 2.
    let keys = vec![
        vec![60, 80, 90, 10],
        vec![99, 99, 70, 40],
        vec![10, 10, 10, 55],
    ];
    // Line 0 sees synced 0..2 and takes 1 (80); line 1 sees 2..4 and takes 2;
    // line 2 sees 3..4 and takes 3.
    assert_eq!(match_synced_anchors(&keys, 4, 50, 2), vec![Some(1), Some(2), Some(3)]);
}

#[test]
fn a_missed_line_does_not_move_the_cursor() {
    let keys = vec![vec![70, 10, 10], vec![10, 10, 10], vec![10, 65, 65]];
    // Line 1 misses; line 2 still searches from synced 1 and keeps the first
    // of two equal keys.
    assert_eq!(match_synced_anchors(&keys, 3, 50, 8), vec![Some(0), None, Some(1)]);
}

#[test]
fn no_synced_lines_match_nothing() {
    let keys: Vec<Vec<u64>> = vec![vec![], vec![]];
    assert_eq!(match_synced_anchors(&keys, 0, 0, 8), vec![None, None]);
}

#[test]
fn lrclib_answers_go_smallest_penalty_first_keeping_ties_in_order() {
    assert_eq!(lrclib_candidate_order(&vec![5030, 12, 5000, 12, 0]), vec![4, 1, 3, 2, 0]);
    assert!(lrclib_candidate_order(&vec![]).is_empty());
    assert_eq!(lrclib_candidate_order(&vec![i64::MAX, i64::MIN]), vec![1, 0]);
}

#[test]
fn an_empty_album_search_is_retried_without_the_album() {
    assert!(lrclib_retry_without_album(true, 0));
    assert!(!lrclib_retry_without_album(true, 3));
    assert!(!lrclib_retry_without_album(false, 0));
}
