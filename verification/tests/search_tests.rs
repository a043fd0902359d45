use app_core::search::{
    best_match_index, find_alternative_analyzed_songs, find_best_matching_local_song, normalize,
    ranked_indices, search_songs_ranked,
};

#[test]
fn best_match_takes_the_largest_key_and_the_last_of_ties() {
    assert_eq!(best_match_index(&vec![5, 9, 3, 9, 1], 4), Some(3));
    assert_eq!(best_match_index(&vec![5, 7, 3], 4), Some(1));
}

#[test]
fn best_match_needs_a_key_above_the_floor() {
    assert_eq!(best_match_index(&vec![1, 2, 3], 4), None);
    assert_eq!(best_match_index(&vec![], 0), None);
    assert_eq!(best_match_index(&vec![4], 4), None);
    assert_eq!(best_match_index(&vec![4, 5, 4], 4), Some(1));
}

#[test]
fn blank_query_matches_nothing() {
    assert_eq!(find_best_matching_local_song("   ", &vec![10, 20], 0), None);
    assert_eq!(find_best_matching_local_song("abba", &vec![10, 20], 0), Some(1));
    assert!(search_songs_ranked("\t", &vec![10, 20], 0, 5).is_empty());
}

#[test]
fn ranking_is_descending_and_stable() {
    let keys = vec![3, 8, 5, 8, 1];
    let all = vec![true; 5];
    assert_eq!(ranked_indices(&keys, &all, 0, 10), vec![1, 3, 2, 0, 4]);
}

#[test]
fn ranking_respects_floor_limit_and_eligibility() {
    let keys = vec![3, 8, 5, 8, 1];
    assert_eq!(ranked_indices(&keys, &vec![true; 5], 4, 10), vec![1, 3, 2]);
    assert_eq!(ranked_indices(&keys, &vec![true; 5], 0, 2), vec![1, 3]);
    assert_eq!(ranked_indices(&keys, &vec![true, false, true, true, true], 0, 3), vec![3, 2, 0]);
    assert!(ranked_indices(&keys, &vec![true; 5], 0, 0).is_empty());
}

#[test]
fn search_ranks_only_scores_at_the_floor() {
    assert_eq!(search_songs_ranked("queen", &vec![40, 90, 45, 60], 45, 10), vec![1, 3, 2]);
}

#[test]
fn alternatives_keep_order_for_a_blank_query() {
    let keys = vec![9, 1, 7, 3];
    let analyzed = vec![true, false, true, true];
    assert_eq!(find_alternative_analyzed_songs("", &keys, &analyzed, 2), vec![0, 2]);
    assert_eq!(find_alternative_analyzed_songs("x", &keys, &analyzed, 2), vec![0, 2]);
    assert_eq!(find_alternative_analyzed_songs("x", &keys, &analyzed, 5), vec![0, 2, 3]);
}

#[test]
fn normalize_trims_and_lowercases() {
    assert_eq!(normalize("  HeLLo World \n"), "hello world");
    assert_eq!(normalize("ÀBÇ"), "àbç");
    assert_eq!(normalize(" \t "), "");
}
