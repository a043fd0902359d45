//! Plain-text lyrics: turning raw text into display lines, the LRCLIB
//! search URL and which of its answers carry lyrics, whether synced
//! timing anchors cover enough lines, and the checks before lyrics are
//! edited.

use vstd::prelude::*;
use vstd::utf8::encode_utf8;

use crate::encoding::{percent_encode, url_encode};
use crate::keyed::views_of;
use crate::search::{is_top_ranking, ranked_indices};
use crate::text::{chars_of, str_equals, string_of, trim, trimmed};

verus! {

/// `s` cut at every `\n`: `k` newlines give `k + 1` pieces.
pub open spec fn split_newlines(s: Seq<char>) -> Seq<Seq<char>>
    decreases s.len(),
{
    if s.len() == 0 {
        seq![Seq::empty()]
    } else {
        let p = split_newlines(s.drop_last());
        if s.last() == '\n' {
            p.push(Seq::empty())
        } else {
            p.update(p.len() - 1, p.last().push(s.last()))
        }
    }
}

proof fn lemma_split_newlines_nonempty(s: Seq<char>)
    ensures
        split_newlines(s).len() > 0,
    decreases s.len(),
{
    if s.len() > 0 {
        lemma_split_newlines_nonempty(s.drop_last());
    }
}

/// The pieces trimmed, blank ones dropped, in order.
pub open spec fn nonblank_trimmed(ls: Seq<Seq<char>>) -> Seq<Seq<char>>
    decreases ls.len(),
{
    if ls.len() == 0 {
        Seq::empty()
    } else {
        let p = nonblank_trimmed(ls.drop_last());
        if trim(ls.last()).len() > 0 {
            p.push(trim(ls.last()))
        } else {
            p
        }
    }
}

/// The display lines of plain lyrics text: each line trimmed, blank lines
/// dropped (`\r` before a `\n` is trimmed away with the rest).
pub open spec fn plain_lines(text: Seq<char>) -> Seq<Seq<char>> {
    nonblank_trimmed(split_newlines(text))
}

proof fn lemma_nonblank_push(ls: Seq<Seq<char>>, l: Seq<char>)
    ensures
        nonblank_trimmed(ls.push(l)) == if trim(l).len() > 0 {
            nonblank_trimmed(ls).push(trim(l))
        } else {
            nonblank_trimmed(ls)
        },
{
    assert(ls.push(l).drop_last() =~= ls);
}

/// The display lines of plain lyrics text (see `plain_lines`).
pub fn text_lines(text: &str) -> (r: Vec<String>)
    ensures
        r@.map_values(|l: String| l@) == plain_lines(text@),
{
    let cs = chars_of(text);
    let mut out: Vec<String> = Vec::new();
    let mut cur: Vec<char> = Vec::new();
    let mut i: usize = 0;
    proof {
        lemma_split_newlines_nonempty(text@.subrange(0, 0));
        assert(text@.subrange(0, 0) =~= Seq::<char>::empty());
        assert(out@.map_values(|l: String| l@) =~= Seq::<Seq<char>>::empty());
    }
    while i < cs.len()
        invariant
            cs@ == text@,
            i <= cs@.len(),
            split_newlines(text@.subrange(0, i as int)).len() > 0,
            cur@ == split_newlines(text@.subrange(0, i as int)).last(),
            out@.map_values(|l: String| l@) == nonblank_trimmed(
                split_newlines(text@.subrange(0, i as int)).drop_last(),
            ),
        decreases cs@.len() - i,
    {
        let ghost pre = text@.subrange(0, i as int);
        let ghost post = text@.subrange(0, i + 1);
        assert(post.drop_last() =~= pre);
        assert(post.last() == cs@[i as int]);
        let ghost p = split_newlines(pre);
        let c = cs[i];
        if c == '\n' {
            let line = string_of(cur.as_slice());
            let t = trimmed(line.as_str());
            proof {
                lemma_nonblank_push(p.drop_last(), p.last());
                assert(p.drop_last().push(p.last()) =~= p);
                assert(split_newlines(post).drop_last() =~= p);
            }
            if !t.as_str().is_empty() {
                let ghost before = out@.map_values(|l: String| l@);
                out.push(t);
                assert(out@.map_values(|l: String| l@) =~= before.push(trim(p.last())));
            }
            cur = Vec::new();
            assert(cur@ =~= Seq::<char>::empty());
        } else {
            cur.push(c);
            proof {
                assert(split_newlines(post).drop_last() =~= p.drop_last());
            }
        }
        i = i + 1;
    }
    assert(text@.subrange(0, cs@.len() as int) =~= text@);
    let ghost p = split_newlines(text@);
    let line = string_of(cur.as_slice());
    let t = trimmed(line.as_str());
    proof {
        lemma_nonblank_push(p.drop_last(), p.last());
        assert(p.drop_last().push(p.last()) =~= p);
    }
    if !t.as_str().is_empty() {
        let ghost before = out@.map_values(|l: String| l@);
        out.push(t);
        assert(out@.map_values(|l: String| l@) =~= before.push(trim(p.last())));
    }
    out
}

/// Edited lines trimmed, blank ones dropped.
pub fn clean_lines(lines: &Vec<String>) -> (r: Vec<String>)
    ensures
        r@.map_values(|l: String| l@) == nonblank_trimmed(lines@.map_values(|l: String| l@)),
{
    let ghost ls = lines@.map_values(|l: String| l@);
    let mut out: Vec<String> = Vec::new();
    let mut i: usize = 0;
    assert(out@.map_values(|l: String| l@) =~= nonblank_trimmed(ls.subrange(0, 0)));
    while i < lines.len()
        invariant
            i <= lines@.len(),
            ls == lines@.map_values(|l: String| l@),
            out@.map_values(|l: String| l@) == nonblank_trimmed(ls.subrange(0, i as int)),
        decreases lines@.len() - i,
    {
        assert(ls.subrange(0, i + 1).drop_last() =~= ls.subrange(0, i as int));
        assert(ls.subrange(0, i + 1).last() == lines@[i as int]@);
        let t = trimmed(lines[i].as_str());
        if !t.as_str().is_empty() {
            let ghost before = out@.map_values(|l: String| l@);
            out.push(t);
            assert(out@.map_values(|l: String| l@) =~= before.push(trim(lines@[i as int]@)));
        }
        i = i + 1;
    }
    assert(ls.subrange(0, lines@.len() as int) =~= ls);
    out
}

/// The lines that are not blank, kept as they are, in order.
pub open spec fn nonblank(ls: Seq<Seq<char>>) -> Seq<Seq<char>>
    decreases ls.len(),
{
    if ls.len() == 0 {
        Seq::empty()
    } else {
        let p = nonblank(ls.drop_last());
        if trim(ls.last()).len() > 0 {
            p.push(ls.last())
        } else {
            p
        }
    }
}

/// The display lines of raw lyrics text, given the lines an LRC reading of
/// it yielded (`None` when it is no LRC): the non-blank LRC lines when
/// there are any, else the plain text's lines.
pub open spec fn lyrics_text_lines(text: Seq<char>, lrc: Option<Seq<Seq<char>>>) -> Seq<Seq<char>> {
    match lrc {
        Some(ls) => if nonblank(ls).len() > 0 {
            nonblank(ls)
        } else {
            plain_lines(text)
        },
        None => plain_lines(text),
    }
}

/// The display lines of raw lyrics text; `lrc_lines` holds the segment
/// texts when the text reads as LRC (see `lyrics_text_lines`).
pub fn lines_from_lyrics_text(text: &str, lrc_lines: Option<Vec<String>>) -> (r: Vec<String>)
    ensures
        views_of(r@) == lyrics_text_lines(
            text@,
            match lrc_lines {
                Some(v) => Some(views_of(v@)),
                None => None,
            },
        ),
{
    if let Some(segments) = lrc_lines {
        let ghost ls = views_of(segments@);
        let mut kept: Vec<String> = Vec::new();
        let mut i: usize = 0;
        assert(views_of(kept@) =~= nonblank(ls.subrange(0, 0)));
        while i < segments.len()
            invariant
                i <= segments@.len(),
                ls == views_of(segments@),
                views_of(kept@) == nonblank(ls.subrange(0, i as int)),
            decreases segments@.len() - i,
        {
            assert(ls.subrange(0, i + 1).drop_last() =~= ls.subrange(0, i as int));
            assert(ls.subrange(0, i + 1).last() == segments@[i as int]@);
            let t = trimmed(segments[i].as_str());
            if !t.as_str().is_empty() {
                let ghost before = views_of(kept@);
                kept.push(segments[i].clone());
                assert(views_of(kept@) =~= before.push(segments@[i as int]@));
            }
            i = i + 1;
        }
        assert(ls.subrange(0, segments@.len() as int) =~= ls);
        if kept.len() > 0 {
            return kept;
        }
    }
    let r = text_lines(text);
    assert(views_of(r@) =~= r@.map_values(|l: String| l@));
    r
}

/// Saving edited lyrics: refused for USDX songs and when nothing but blank
/// lines is left; otherwise the cleaned lines to write (the transcript is
/// then dropped and the song queued for re-analysis).
pub fn save_lyrics_and_realign(is_usdx: bool, lines: &Vec<String>) -> (r: Result<Vec<String>, String>)
    ensures
        is_usdx ==> (r matches Err(m) && m@ == "Cannot edit lyrics for USDX songs"@),
        !is_usdx ==> {
            let cleaned = nonblank_trimmed(lines@.map_values(|l: String| l@));
            if cleaned.len() == 0 {
                r matches Err(m) && m@ == "Lyrics cannot be empty"@
            } else {
                r matches Ok(v) && v@.map_values(|l: String| l@) == cleaned
            }
        },
{
    if is_usdx {
        return Err("Cannot edit lyrics for USDX songs".to_owned());
    }
    let cleaned = clean_lines(lines);
    if cleaned.len() == 0 {
        return Err("Lyrics cannot be empty".to_owned());
    }
    Ok(cleaned)
}

/// Replacing a song's lyrics by an LRC file is refused for USDX songs.
pub fn provide_lrc_guard(is_usdx: bool) -> (r: Result<(), String>)
    ensures
        is_usdx ==> (r matches Err(m) && m@ == "Cannot provide lyrics for USDX songs"@),
        !is_usdx ==> r is Ok,
{
    if is_usdx {
        Err("Cannot provide lyrics for USDX songs".to_owned())
    } else {
        Ok(())
    }
}

/// Applying timed lyrics is refused for USDX songs.
pub fn apply_timed_lyrics_guard(is_usdx: bool) -> (r: Result<(), String>)
    ensures
        is_usdx ==> (r matches Err(m) && m@ == "Cannot edit lyrics for USDX songs"@),
        !is_usdx ==> r is Ok,
{
    if is_usdx {
        Err("Cannot edit lyrics for USDX songs".to_owned())
    } else {
        Ok(())
    }
}

/// LRCLIB is searched only for a song with a title and a known artist.
pub fn lrclib_searchable(title: &str, artist: &str) -> (r: bool)
    ensures
        r == (title@.len() > 0 && artist@ != "Unknown Artist"@),
{
    !title.is_empty() && !str_equals(artist, "Unknown Artist")
}

/// The album to narrow an LRCLIB search to: none when unknown.
pub fn lrclib_album(album: &str) -> (r: Option<String>)
    ensures
        (album@.len() == 0 || album@ == "Unknown Album"@) ==> r is None,
        !(album@.len() == 0 || album@ == "Unknown Album"@) ==> (r matches Some(a) && a@ == album@),
{
    if album.is_empty() || str_equals(album, "Unknown Album") {
        None
    } else {
        Some(album.to_owned())
    }
}

/// Whether to search LRCLIB again without the album: only when the search
/// was narrowed to an album and found nothing.
pub fn lrclib_retry_without_album(narrowed: bool, results: usize) -> (r: bool)
    ensures
        r == (narrowed && results == 0),
{
    narrowed && results == 0
}

/// The LRCLIB search URL.
pub open spec fn lrclib_url(title: Seq<char>, artist: Seq<char>, album: Option<Seq<char>>) -> Seq<
    char,
> {
    let base = "https://lrclib.net/api/search?track_name="@ + percent_encode(encode_utf8(title))
        + "&artist_name="@ + percent_encode(encode_utf8(artist));
    match album {
        Some(a) => base + "&album_name="@ + percent_encode(encode_utf8(a)),
        None => base,
    }
}

/// The LRCLIB search URL for a track, optionally narrowed to an album.
pub fn lrclib_search_url(title: &str, artist: &str, album: Option<&str>) -> (r: String)
    ensures
        r@ == lrclib_url(
            title@,
            artist@,
            match album {
                Some(a) => Some(a@),
                None => None,
            },
        ),
{
    let url = "https://lrclib.net/api/search?track_name=".to_owned().concat(
        url_encode(title).as_str(),
    ).concat("&artist_name=").concat(url_encode(artist).as_str());
    match album {
        Some(a) => url.concat("&album_name=").concat(url_encode(a).as_str()),
        None => url,
    }
}

/// The order key of a ranking penalty: the smaller the penalty, the larger
/// the key.
pub open spec fn penalty_key(p: i64) -> u64 {
    (i64::MAX - p) as u64
}

fn penalty_key_exec(p: i64) -> (r: u64)
    ensures
        r == penalty_key(p),
{
    let wide: i128 = (i64::MAX as i128) - (p as i128);
    wide as u64
}

/// The order LRCLIB answers are offered in: smallest penalty first (the
/// penalty weighs a differing album and the duration difference), answers
/// with equal penalties in the order LRCLIB gave them.
pub fn lrclib_candidate_order(penalties: &Vec<i64>) -> (r: Vec<usize>)
    ensures
        is_top_ranking(
            Seq::new(penalties@.len(), |i: int| penalty_key(penalties@[i])),
            Seq::new(penalties@.len(), |i: int| true),
            0,
            penalties@.len(),
            r@,
        ),
{
    let mut keys: Vec<u64> = Vec::new();
    let mut all: Vec<bool> = Vec::new();
    let mut i: usize = 0;
    while i < penalties.len()
        invariant
            i <= penalties@.len(),
            keys@ == Seq::new(i as nat, |j: int| penalty_key(penalties@[j])),
            all@ == Seq::new(i as nat, |j: int| true),
        decreases penalties@.len() - i,
    {
        keys.push(penalty_key_exec(penalties[i]));
        all.push(true);
        i = i + 1;
    }
    ranked_indices(&keys, &all, 0, penalties.len())
}

/// What an LRCLIB answer contributes: its display lines and its synced
/// lyrics (dropped when blank); `None` when it has neither.
pub open spec fn candidate_view(plain: Seq<char>, synced: Option<Seq<char>>) -> Option<
    (Seq<Seq<char>>, Option<Seq<char>>),
> {
    let lines = plain_lines(plain);
    let synced = match synced {
        Some(s) => if trim(s).len() > 0 {
            Some(s)
        } else {
            None
        },
        None => None,
    };
    if lines.len() > 0 || synced is Some {
        Some((lines, synced))
    } else {
        None
    }
}

/// Keeps an LRCLIB answer only when it carries lyrics (see
/// `candidate_view`).
pub fn candidate_lyrics(plain: &str, synced: Option<String>) -> (r: Option<(Vec<String>, Option<String>)>)
    ensures
        match candidate_view(
            plain@,
            match synced {
                Some(s) => Some(s@),
                None => None,
            },
        ) {
            None => r is None,
            Some((lines, syn)) => r matches Some((ls, s)) && ls@.map_values(|l: String| l@) == lines
                && match s {
                Some(x) => syn == Some(x@),
                None => syn is None,
            },
        },
{
    let lines = text_lines(plain);
    let synced = match synced {
        Some(s) => if trimmed(s.as_str()).as_str().is_empty() {
            None
        } else {
            Some(s)
        },
        None => None,
    };
    if lines.len() > 0 || synced.is_some() {
        Some((lines, synced))
    } else {
        None
    }
}

/// The best synced line in `lo..hi` for a display line whose similarity
/// keys are `row`: the largest key reaching `threshold`, the first of equal
/// ones.
pub open spec fn window_best(row: Seq<u64>, threshold: u64, lo: int, hi: int) -> Option<int>
    decreases hi - lo,
{
    if hi <= lo {
        None
    } else {
        let b = window_best(row, threshold, lo, hi - 1);
        let k = hi - 1;
        if row[k] >= threshold && (b is None || row[k] > row[b->0]) {
            Some(k)
        } else {
            b
        }
    }
}

/// The walk that matches the first `n` display lines to synced lines, in
/// order: each looks at the `lookahead` synced lines from the cursor on (of
/// `m`), takes the best reaching `threshold` and moves the cursor just past
/// it; a line without a match leaves the cursor where it is. The matches so
/// far and the cursor.
pub open spec fn anchor_walk(
    keys: Seq<Seq<u64>>,
    m: int,
    threshold: u64,
    lookahead: int,
    n: int,
) -> (Seq<Option<int>>, int)
    decreases n,
{
    if n <= 0 {
        (Seq::empty(), 0)
    } else {
        let (prev, c) = anchor_walk(keys, m, threshold, lookahead, n - 1);
        let hi = if c + lookahead < m {
            c + lookahead
        } else {
            m
        };
        match window_best(keys[n - 1], threshold, c, hi) {
            Some(k) => (prev.push(Some(k)), k + 1),
            None => (prev.push(None), c),
        }
    }
}

/// An index as a mathematical integer.
pub open spec fn index_of(o: Option<usize>) -> Option<int> {
    match o {
        Some(k) => Some(k as int),
        None => None,
    }
}

proof fn lemma_anchor_walk_len(keys: Seq<Seq<u64>>, m: int, threshold: u64, lookahead: int, n: int)
    requires
        0 <= n,
    ensures
        anchor_walk(keys, m, threshold, lookahead, n).0.len() == n,
    decreases n,
{
    if n > 0 {
        lemma_anchor_walk_len(keys, m, threshold, lookahead, n - 1);
    }
}

proof fn lemma_window_best_bounds(row: Seq<u64>, threshold: u64, lo: int, hi: int)
    ensures
        window_best(row, threshold, lo, hi) matches Some(k) ==> lo <= k < hi && row[k] >= threshold,
    decreases hi - lo,
{
    if hi > lo {
        lemma_window_best_bounds(row, threshold, lo, hi - 1);
    }
}

/// For each display line, the synced line it is matched to (see
/// `anchor_walk`); `keys[i][j]` is the order key of the similarity of
/// display line `i` to synced line `j`, of `synced_count`.
pub fn match_synced_anchors(
    keys: &Vec<Vec<u64>>,
    synced_count: usize,
    threshold: u64,
    lookahead: usize,
) -> (r: Vec<Option<usize>>)
    requires
        forall|i: int| 0 <= i < keys@.len() ==> (#[trigger] keys@[i])@.len() == synced_count,
    ensures
        r@.len() == keys@.len(),
        forall|i: int|
            0 <= i < r@.len() ==> index_of(#[trigger] r@[i]) == anchor_walk(
                keys@.map_values(|row: Vec<u64>| row@),
                synced_count as int,
                threshold,
                lookahead as int,
                keys@.len() as int,
            ).0[i],
{
    let ghost ks = keys@.map_values(|row: Vec<u64>| row@);
    let ghost m = synced_count as int;
    let mut anchors: Vec<Option<usize>> = Vec::new();
    let mut cursor: usize = 0;
    let mut i: usize = 0;
    while i < keys.len()
        invariant
            i <= keys@.len(),
            ks == keys@.map_values(|row: Vec<u64>| row@),
            m == synced_count,
            forall|j: int| 0 <= j < keys@.len() ==> (#[trigger] keys@[j])@.len() == synced_count,
            anchors@.len() == i,
            cursor as int == anchor_walk(ks, m, threshold, lookahead as int, i as int).1,
            cursor <= synced_count,
            forall|p: int|
                0 <= p < i ==> index_of(#[trigger] anchors@[p]) == anchor_walk(
                    ks,
                    m,
                    threshold,
                    lookahead as int,
                    i as int,
                ).0[p],
        decreases keys@.len() - i,
    {
        let row = &keys[i];
        let hi: usize = if lookahead < synced_count - cursor {
            cursor + lookahead
        } else {
            synced_count
        };
        let mut best: Option<usize> = None;
        let mut idx: usize = cursor;
        while idx < hi
            invariant
                cursor <= idx <= hi <= synced_count,
                row@.len() == synced_count,
                index_of(best) == window_best(row@, threshold, cursor as int, idx as int),
            decreases hi - idx,
        {
            proof {
                lemma_window_best_bounds(row@, threshold, cursor as int, idx as int);
            }
            let score = row[idx];
            let better = match best {
                None => true,
                Some(b) => score > row[b],
            };
            if score >= threshold && better {
                best = Some(idx);
            }
            idx = idx + 1;
        }
        proof {
            lemma_window_best_bounds(row@, threshold, cursor as int, hi as int);
            assert(ks[i as int] == row@);
        }
        let ghost prev = anchor_walk(ks, m, threshold, lookahead as int, i as int).0;
        let ghost c0 = cursor as int;
        proof {
            lemma_anchor_walk_len(ks, m, threshold, lookahead as int, i as int);
            assert(hi as int == if c0 + lookahead < m {
                c0 + lookahead
            } else {
                m
            });
            assert(index_of(best) == window_best(ks[i as int], threshold, c0, hi as int));
        }
        match best {
            Some(k) => {
                anchors.push(Some(k));
                cursor = k + 1;
            },
            None => {
                anchors.push(None);
            },
        }
        proof {
            let next = anchor_walk(ks, m, threshold, lookahead as int, i + 1);
            assert(next.0 == prev.push(index_of(best)));
            assert forall|p: int| 0 <= p < i + 1 implies index_of(#[trigger] anchors@[p]) == next.0[p] by {
                if p < i {
                    assert(next.0[p] == prev[p]);
                }
            }
        }
        i = i + 1;
    }
    anchors
}

/// The walk's matches move forward only: each match lies in `0..m` and
/// reaches the threshold, and a later line's match comes after an earlier
/// line's, so the anchors come out in time order.
pub proof fn lemma_anchor_matches_increase(
    keys: Seq<Seq<u64>>,
    m: int,
    threshold: u64,
    lookahead: int,
    n: int,
)
    requires
        0 <= m,
        0 <= n <= keys.len(),
        forall|i: int| 0 <= i < keys.len() ==> (#[trigger] keys[i]).len() == m,
    ensures
        ({
            let (a, c) = anchor_walk(keys, m, threshold, lookahead, n);
            &&& a.len() == n
            &&& 0 <= c <= m
            &&& forall|p: int| 0 <= p < n && a[p] is Some ==> a[p]->0 < c
            &&& forall|p: int|
                0 <= p < n && a[p] is Some ==> 0 <= a[p]->0 < m && keys[p][a[p]->0] >= threshold
            &&& forall|p: int, q: int|
                0 <= p < q < n && a[p] is Some && a[q] is Some ==> a[p]->0 < a[q]->0
        }),
    decreases n,
{
    if n > 0 {
        lemma_anchor_matches_increase(keys, m, threshold, lookahead, n - 1);
        let (prev, c) = anchor_walk(keys, m, threshold, lookahead, n - 1);
        let hi = if c + lookahead < m {
            c + lookahead
        } else {
            m
        };
        lemma_window_best_bounds(keys[n - 1], threshold, c, hi);
    }
}

/// How many entries are set.
pub open spec fn count_some<T>(s: Seq<Option<T>>) -> nat
    decreases s.len(),
{
    if s.len() == 0 {
        0
    } else {
        count_some(s.drop_last()) + if s.last() is Some {
            1nat
        } else {
            0nat
        }
    }
}

/// Timing anchors are kept only when at least a quarter of the lines got
/// one (and there is a line at all).
pub fn anchors_if_sufficient<T>(anchors: Vec<Option<T>>) -> (r: Option<Vec<Option<T>>>)
    requires
        anchors@.len() <= 0x20_0000_0000_0000,
    ensures
        (anchors@.len() == 0 || 4 * count_some(anchors@) < anchors@.len()) ==> r is None,
        !(anchors@.len() == 0 || 4 * count_some(anchors@) < anchors@.len()) ==> r == Some(
            anchors,
        ),
{
    if anchors.len() == 0 {
        return None;
    }
    let mut matched: usize = 0;
    let mut i: usize = 0;
    while i < anchors.len()
        invariant
            i <= anchors@.len(),
            anchors@.len() <= 0x20_0000_0000_0000,
            matched == count_some(anchors@.subrange(0, i as int)),
            matched <= i,
        decreases anchors@.len() - i,
    {
        assert(anchors@.subrange(0, i + 1).drop_last() =~= anchors@.subrange(0, i as int));
        if anchors[i].is_some() {
            matched = matched + 1;
        }
        i = i + 1;
    }
    assert(anchors@.subrange(0, anchors@.len() as int) =~= anchors@);
    if matched < anchors.len() / 4 + (if anchors.len() % 4 == 0 {
        0
    } else {
        1
    }) {
        return None;
    }
    Some(anchors)
}

} // verus!
