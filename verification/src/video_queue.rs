//! In-flight visibility for the karaoke-video and YouTube-video pipelines:
//! which songs are queued or being processed right now, one row per
//! `(file_hash, kind)`, deleted when the work ends (success or failure).
//!
//! `started_at` doubles as a race-guard token: marking a row processing
//! hands back the exact value it wrote, and clearing only deletes the row
//! while it still carries that value, so a bulk pass and a concurrent
//! single-song action on the same song can't delete each other's row.

use vstd::prelude::*;

use crate::keyed::{
    distinct_keys, fold_map, has_key, lemma_fold_domain, lemma_fold_remove, lemma_fold_update,
    lemma_push_distinct, views_of,
};
use crate::text::str_equals;

verus! {

/// Which video pipeline a row belongs to.
#[derive(Debug, Clone, Copy, PartialEq, Eq, Structural)]
pub enum VideoQueueKind {
    Reel,
    Youtube,
}

/// Where a row stands.
#[derive(Debug, Clone, Copy, PartialEq, Eq, Structural)]
pub enum VideoQueueStage {
    Queued,
    Processing,
}

impl VideoQueueKind {
    /// The name stored in the `kind` column.
    pub open spec fn db_name(self) -> Seq<char> {
        match self {
            VideoQueueKind::Reel => "reel"@,
            VideoQueueKind::Youtube => "youtube"@,
        }
    }

    /// The name this is stored under.
    pub fn as_db_str(self) -> (r: &'static str)
        ensures
            r@ == self.db_name(),
    {
        match self {
            VideoQueueKind::Reel => "reel",
            VideoQueueKind::Youtube => "youtube",
        }
    }

    /// The kind a stored name stands for; `None` for any other name.
    pub fn from_db_str(s: &str) -> (r: Option<VideoQueueKind>)
        ensures
            r == (if s@ == "reel"@ {
                Some(VideoQueueKind::Reel)
            } else if s@ == "youtube"@ {
                Some(VideoQueueKind::Youtube)
            } else {
                None
            }),
    {
        if str_equals(s, "reel") {
            Some(VideoQueueKind::Reel)
        } else if str_equals(s, "youtube") {
            Some(VideoQueueKind::Youtube)
        } else {
            None
        }
    }
}

impl VideoQueueStage {
    /// The name stored in the `stage` column.
    pub open spec fn db_name(self) -> Seq<char> {
        match self {
            VideoQueueStage::Queued => "queued"@,
            VideoQueueStage::Processing => "processing"@,
        }
    }

    /// The name this is stored under.
    pub fn as_db_str(self) -> (r: &'static str)
        ensures
            r@ == self.db_name(),
    {
        match self {
            VideoQueueStage::Queued => "queued",
            VideoQueueStage::Processing => "processing",
        }
    }

    /// The stage a stored name stands for; `None` for any other name.
    pub fn from_db_str(s: &str) -> (r: Option<VideoQueueStage>)
        ensures
            r == (if s@ == "queued"@ {
                Some(VideoQueueStage::Queued)
            } else if s@ == "processing"@ {
                Some(VideoQueueStage::Processing)
            } else {
                None
            }),
    {
        if str_equals(s, "queued") {
            Some(VideoQueueStage::Queued)
        } else if str_equals(s, "processing") {
            Some(VideoQueueStage::Processing)
        } else {
            None
        }
    }
}

/// Every kind and stage reads back from the name it is stored under.
pub proof fn lemma_video_queue_names_roundtrip(k: VideoQueueKind, s: VideoQueueStage)
    ensures
        k.db_name() == "reel"@ <==> k == VideoQueueKind::Reel,
        k.db_name() == "youtube"@ <==> k == VideoQueueKind::Youtube,
        s.db_name() == "queued"@ <==> s == VideoQueueStage::Queued,
        s.db_name() == "processing"@ <==> s == VideoQueueStage::Processing,
{
    reveal_strlit("reel");
    reveal_strlit("youtube");
    reveal_strlit("queued");
    reveal_strlit("processing");
    assert("reel"@.len() == 4);
    assert("youtube"@.len() == 7);
    assert("queued"@.len() == 6);
    assert("processing"@.len() == 10);
}

/// One song in flight, as the UI shows it.
pub struct VideoQueueEntry {
    pub file_hash: String,
    pub kind: VideoQueueKind,
    pub stage: VideoQueueStage,
}

/// What the UI is shown: every in-flight song.
pub struct VideoProcessingQueue {
    pub entries: Vec<VideoQueueEntry>,
}

/// The entries a list of stored `(file_hash, kind, stage)` rows yields, in
/// order: a row with an unknown kind or stage is dropped.
pub open spec fn decoded_entries(rows: Seq<(String, String, String)>) -> Seq<
    (Seq<char>, VideoQueueKind, VideoQueueStage),
>
    decreases rows.len(),
{
    if rows.len() == 0 {
        Seq::empty()
    } else {
        let prev = decoded_entries(rows.drop_last());
        let (h, k, s) = rows.last();
        let kind = if k@ == "reel"@ {
            Some(VideoQueueKind::Reel)
        } else if k@ == "youtube"@ {
            Some(VideoQueueKind::Youtube)
        } else {
            None
        };
        let stage = if s@ == "queued"@ {
            Some(VideoQueueStage::Queued)
        } else if s@ == "processing"@ {
            Some(VideoQueueStage::Processing)
        } else {
            None
        };
        match (kind, stage) {
            (Some(kind), Some(stage)) => prev.push((h@, kind, stage)),
            _ => prev,
        }
    }
}

impl VideoProcessingQueue {
    /// The entries, each as `(hash, kind, stage)`.
    pub open spec fn entries_view(&self) -> Seq<(Seq<char>, VideoQueueKind, VideoQueueStage)> {
        self.entries@.map_values(|e: VideoQueueEntry| (e.file_hash@, e.kind, e.stage))
    }

    /// Decodes the stored rows, dropping any with an unknown kind or stage.
    pub fn load(rows: &Vec<(String, String, String)>) -> (r: VideoProcessingQueue)
        ensures
            r.entries_view() == decoded_entries(rows@),
    {
        let mut entries: Vec<VideoQueueEntry> = Vec::new();
        let mut i: usize = 0;
        while i < rows.len()
            invariant
                i <= rows@.len(),
                entries@.map_values(|e: VideoQueueEntry| (e.file_hash@, e.kind, e.stage))
                    == decoded_entries(rows@.subrange(0, i as int)),
            decreases rows@.len() - i,
        {
            let ghost pre = rows@.subrange(0, i as int);
            assert(rows@.subrange(0, i + 1).drop_last() =~= pre);
            let (h, k, s) = &rows[i];
            let kind = VideoQueueKind::from_db_str(k.as_str());
            let stage = VideoQueueStage::from_db_str(s.as_str());
            match (kind, stage) {
                (Some(kind), Some(stage)) => {
                    entries.push(VideoQueueEntry { file_hash: h.clone(), kind, stage });
                },
                _ => {},
            }
            proof {
                assert(entries@.map_values(|e: VideoQueueEntry| (e.file_hash@, e.kind, e.stage))
                    =~= decoded_entries(rows@.subrange(0, i + 1)));
            }
            i = i + 1;
        }
        assert(rows@.subrange(0, rows@.len() as int) =~= rows@);
        VideoProcessingQueue { entries }
    }
}

/// One stored row of the in-flight table.
pub struct VideoQueueRow {
    pub file_hash: String,
    pub kind: VideoQueueKind,
    pub stage: VideoQueueStage,
    pub started_at: String,
}

/// A row's key, `(hash, kind)`, as a function.
pub open spec fn video_row_key_fn() -> spec_fn(VideoQueueRow) -> (Seq<char>, VideoQueueKind) {
    |r: VideoQueueRow| (r.file_hash@, r.kind)
}

/// A row's `(stage, started_at)`, as a function.
pub open spec fn video_row_val_fn() -> spec_fn(VideoQueueRow) -> (VideoQueueStage, Seq<char>) {
    |r: VideoQueueRow| (r.stage, r.started_at@)
}

/// The in-flight table: at most one row per `(file_hash, kind)`.
pub struct VideoQueueTable {
    pub rows: Vec<VideoQueueRow>,
}

impl View for VideoQueueTable {
    type V = Map<(Seq<char>, VideoQueueKind), (VideoQueueStage, Seq<char>)>;

    open spec fn view(&self) -> Map<(Seq<char>, VideoQueueKind), (VideoQueueStage, Seq<char>)> {
        fold_map(self.rows@, video_row_key_fn(), video_row_val_fn())
    }
}

/// The table after marking `hashes` of `kind` queued at time `now`: a new
/// row starts at `now`, an existing one keeps its `started_at`.
pub open spec fn queued_many(
    m: Map<(Seq<char>, VideoQueueKind), (VideoQueueStage, Seq<char>)>,
    kind: VideoQueueKind,
    hashes: Seq<Seq<char>>,
    now: Seq<char>,
) -> Map<(Seq<char>, VideoQueueKind), (VideoQueueStage, Seq<char>)>
    decreases hashes.len(),
{
    if hashes.len() == 0 {
        m
    } else {
        let prev = queued_many(m, kind, hashes.drop_last(), now);
        let key = (hashes.last(), kind);
        let started = if prev.contains_key(key) {
            prev[key].1
        } else {
            now
        };
        prev.insert(key, (VideoQueueStage::Queued, started))
    }
}

/// The table after marking one row processing at time `now`.
pub open spec fn marked_processing(
    m: Map<(Seq<char>, VideoQueueKind), (VideoQueueStage, Seq<char>)>,
    file_hash: Seq<char>,
    kind: VideoQueueKind,
    now: Seq<char>,
) -> Map<(Seq<char>, VideoQueueKind), (VideoQueueStage, Seq<char>)> {
    m.insert((file_hash, kind), (VideoQueueStage::Processing, now))
}

/// The table after clearing one row with token `started_at`: the row goes
/// only while it still carries that token.
pub open spec fn cleared(
    m: Map<(Seq<char>, VideoQueueKind), (VideoQueueStage, Seq<char>)>,
    file_hash: Seq<char>,
    kind: VideoQueueKind,
    started_at: Seq<char>,
) -> Map<(Seq<char>, VideoQueueKind), (VideoQueueStage, Seq<char>)> {
    let key = (file_hash, kind);
    if m.contains_key(key) && m[key].1 == started_at {
        m.remove(key)
    } else {
        m
    }
}

impl VideoQueueTable {
    /// At most one row per `(hash, kind)`.
    pub open spec fn wf(&self) -> bool {
        distinct_keys(self.rows@, video_row_key_fn())
    }

    /// An empty table.
    pub fn new() -> (r: VideoQueueTable)
        ensures
            r.wf(),
            r@ == Map::<(Seq<char>, VideoQueueKind), (VideoQueueStage, Seq<char>)>::empty(),
    {
        VideoQueueTable { rows: Vec::new() }
    }

    /// The table the stored rows stand for; a later row with the key of an
    /// earlier one replaces it.
    pub fn from_rows(rows: &Vec<VideoQueueRow>) -> (r: VideoQueueTable)
        ensures
            r.wf(),
            r@ == fold_map(rows@, video_row_key_fn(), video_row_val_fn()),
    {
        let mut t = VideoQueueTable::new();
        let mut i: usize = 0;
        while i < rows.len()
            invariant
                i <= rows@.len(),
                t.wf(),
                t@ == fold_map(rows@.subrange(0, i as int), video_row_key_fn(), video_row_val_fn()),
            decreases rows@.len() - i,
        {
            let r = &rows[i];
            t.put(
                VideoQueueRow {
                    file_hash: r.file_hash.clone(),
                    kind: r.kind,
                    stage: r.stage,
                    started_at: r.started_at.clone(),
                },
            );
            assert(rows@.subrange(0, i + 1).drop_last() =~= rows@.subrange(0, i as int));
            i = i + 1;
        }
        assert(rows@.subrange(0, rows@.len() as int) =~= rows@);
        t
    }

    fn find(&self, file_hash: &str, kind: VideoQueueKind) -> (r: Option<usize>)
        ensures
            r matches Some(i) ==> i < self.rows@.len() && video_row_key_fn()(self.rows@[i as int])
                == (file_hash@, kind),
            r is None ==> !has_key(self.rows@, video_row_key_fn(), (file_hash@, kind)),
    {
        let mut i: usize = 0;
        while i < self.rows.len()
            invariant
                i <= self.rows@.len(),
                forall|j: int|
                    0 <= j < i ==> #[trigger] video_row_key_fn()(self.rows@[j]) != (file_hash@, kind),
            decreases self.rows@.len() - i,
        {
            if self.rows[i].kind == kind && str_equals(self.rows[i].file_hash.as_str(), file_hash) {
                return Some(i);
            }
            i = i + 1;
        }
        None
    }

    /// Writes `row` over the row with its key, or adds it.
    fn put(&mut self, row: VideoQueueRow)
        requires
            old(self).wf(),
        ensures
            final(self).wf(),
            final(self)@ == old(self)@.insert(video_row_key_fn()(row), video_row_val_fn()(row)),
    {
        let ghost s = self.rows@;
        match self.find(row.file_hash.as_str(), row.kind) {
            Some(i) => {
                proof {
                    lemma_fold_update(s, i as int, row, video_row_key_fn(), video_row_val_fn());
                }
                self.rows.set(i, row);
            },
            None => {
                proof {
                    lemma_push_distinct(s, row, video_row_key_fn());
                    assert(s.push(row).drop_last() =~= s);
                }
                self.rows.push(row);
            },
        }
    }

    /// The `started_at` recorded for the row of `file_hash` and `kind`.
    fn started_at_of(&self, file_hash: &str, kind: VideoQueueKind) -> (r: Option<String>)
        requires
            self.wf(),
        ensures
            r matches Some(t) ==> self@.contains_key((file_hash@, kind)) && self@[(
                file_hash@,
                kind,
            )].1 == t@,
            r is None ==> !self@.contains_key((file_hash@, kind)),
    {
        proof {
            lemma_fold_domain(self.rows@, video_row_key_fn(), video_row_val_fn());
        }
        match self.find(file_hash, kind) {
            Some(i) => {
                proof {
                    crate::keyed::lemma_fold_value(
                        self.rows@,
                        video_row_key_fn(),
                        video_row_val_fn(),
                    );
                    assert(video_row_key_fn()(self.rows@[i as int]) == (file_hash@, kind));
                }
                Some(self.rows[i].started_at.clone())
            },
            None => None,
        }
    }
}

/// Marks every hash in `file_hashes` queued for `kind` at time `now`,
/// keeping the `started_at` of a row that is already there.
pub fn mark_queued_many(
    table: &mut VideoQueueTable,
    kind: VideoQueueKind,
    file_hashes: &Vec<String>,
    now: &str,
)
    requires
        old(table).wf(),
    ensures
        final(table).wf(),
        final(table)@ == queued_many(old(table)@, kind, views_of(file_hashes@), now@),
{
    let ghost m0 = table@;
    let mut i: usize = 0;
    while i < file_hashes.len()
        invariant
            i <= file_hashes@.len(),
            table.wf(),
            table@ == queued_many(m0, kind, views_of(file_hashes@.subrange(0, i as int)), now@),
        decreases file_hashes@.len() - i,
    {
        let ghost pre = views_of(file_hashes@.subrange(0, i as int));
        let ghost post = views_of(file_hashes@.subrange(0, i + 1));
        assert(post.drop_last() =~= pre);
        assert(post.last() == file_hashes@[i as int]@);
        let hash = &file_hashes[i];
        let started = match table.started_at_of(hash.as_str(), kind) {
            Some(t) => t,
            None => now.to_owned(),
        };
        table.put(
            VideoQueueRow {
                file_hash: hash.clone(),
                kind,
                stage: VideoQueueStage::Queued,
                started_at: started,
            },
        );
        i = i + 1;
    }
    assert(file_hashes@.subrange(0, file_hashes@.len() as int) =~= file_hashes@);
}

/// Marks one row processing at time `now`; returns the token written, to
/// be handed back to `clear`.
pub fn mark_processing(
    table: &mut VideoQueueTable,
    file_hash: &str,
    kind: VideoQueueKind,
    now: &str,
) -> (token: String)
    requires
        old(table).wf(),
    ensures
        final(table).wf(),
        final(table)@ == marked_processing(old(table)@, file_hash@, kind, now@),
        token@ == now@,
{
    table.put(
        VideoQueueRow {
            file_hash: file_hash.to_owned(),
            kind,
            stage: VideoQueueStage::Processing,
            started_at: now.to_owned(),
        },
    );
    now.to_owned()
}

/// Deletes the row of `file_hash` and `kind`, but only while it still
/// carries the token `started_at`.
pub fn clear(table: &mut VideoQueueTable, file_hash: &str, kind: VideoQueueKind, started_at: &str)
    requires
        old(table).wf(),
    ensures
        final(table).wf(),
        final(table)@ == cleared(old(table)@, file_hash@, kind, started_at@),
{
    let ghost s = table.rows@;
    proof {
        lemma_fold_domain(s, video_row_key_fn(), video_row_val_fn());
    }
    match table.find(file_hash, kind) {
        Some(i) => {
            proof {
                crate::keyed::lemma_fold_value(s, video_row_key_fn(), video_row_val_fn());
            }
            if str_equals(table.rows[i].started_at.as_str(), started_at) {
                proof {
                    lemma_fold_remove(s, i as int, video_row_key_fn(), video_row_val_fn());
                }
                table.rows.remove(i);
            }
        },
        None => {},
    }
}

/// Empties the table: whatever owned a row died with the last process.
pub fn clear_all(table: &mut VideoQueueTable)
    ensures
        final(table).wf(),
        final(table)@ == Map::<(Seq<char>, VideoQueueKind), (VideoQueueStage, Seq<char>)>::empty(),
{
    table.rows = Vec::new();
}

/// Race guard: a run that clears with its own token removes its row, and a
/// run whose row was taken over by a later `mark_processing` (another
/// token) leaves the newer run's row in place.
pub proof fn lemma_clear_only_own_run(
    m: Map<(Seq<char>, VideoQueueKind), (VideoQueueStage, Seq<char>)>,
    file_hash: Seq<char>,
    kind: VideoQueueKind,
    mine: Seq<char>,
    theirs: Seq<char>,
)
    requires
        mine != theirs,
    ensures
        !cleared(marked_processing(m, file_hash, kind, mine), file_hash, kind, mine).contains_key(
            (file_hash, kind),
        ),
        cleared(marked_processing(m, file_hash, kind, theirs), file_hash, kind, mine)
            == marked_processing(m, file_hash, kind, theirs),
{
}

/// Marking songs queued never disturbs a row that is being processed but
/// for its stage, and never moves any row's `started_at` token.
pub proof fn lemma_queued_keeps_tokens(
    m: Map<(Seq<char>, VideoQueueKind), (VideoQueueStage, Seq<char>)>,
    kind: VideoQueueKind,
    hashes: Seq<Seq<char>>,
    now: Seq<char>,
    key: (Seq<char>, VideoQueueKind),
)
    requires
        m.contains_key(key),
    ensures
        queued_many(m, kind, hashes, now).contains_key(key),
        queued_many(m, kind, hashes, now)[key].1 == m[key].1,
    decreases hashes.len(),
{
    if hashes.len() > 0 {
        lemma_queued_keeps_tokens(m, kind, hashes.drop_last(), now, key);
    }
}

} // verus!
