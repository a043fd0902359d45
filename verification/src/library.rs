//! Library-wide state: the scan generation that retires in-flight scans,
//! what startup restores into the analysis queue, and the rows written to
//! the diagnostic tables.

use vstd::prelude::*;

use crate::analysis_queue::{
    entry_key_fn, entry_status_fn, AnalysisQueue, AnalysisQueueTable, QueueRowView,
};
use crate::video_queue::{clear_all, VideoQueueKind, VideoQueueStage, VideoQueueTable};
use crate::keyed::{has_key, lemma_fold_domain, views_of};

verus! {

/// The scan generation: bumped at the start of each scan so that scan
/// threads of an earlier generation stop writing.
pub struct ScanGeneration {
    pub value: u64,
}

impl ScanGeneration {
    /// The generation before any scan.
    pub fn new() -> (r: ScanGeneration)
        ensures
            r.value == 0,
    {
        ScanGeneration { value: 0 }
    }
}

/// Starts a new scan generation and returns it.
pub fn bump_scan_generation(g: &mut ScanGeneration) -> (r: u64)
    requires
        old(g).value < u64::MAX,
    ensures
        r == old(g).value + 1,
        final(g).value == r,
{
    g.value = g.value + 1;
    g.value
}

/// Whether `generation` is still the current one.
pub fn scan_generation_is_current(g: &ScanGeneration, generation: u64) -> (r: bool)
    ensures
        r == (g.value == generation),
{
    g.value == generation
}

/// A scan that began before the latest bump is no longer current, while
/// the generation the bump returned is.
pub proof fn lemma_bump_retires_older_scans(before: u64, older: u64)
    requires
        before < u64::MAX,
        older <= before,
    ensures
        ({
            let after = (before + 1) as u64;
            after != older && after == before + 1
        }),
{
}

/// Startup's reset of the stored queues: whatever process owned their rows
/// is gone. Returns the hashes to put back into the analysis queue: every
/// hash of the stored queue `stored` (as read from `table`) when restoring
/// is on, in no particular order, else none. Both the stored analysis queue
/// and the in-flight video table are emptied either way.
pub fn startup(
    stored: &AnalysisQueue,
    table: &mut AnalysisQueueTable,
    videos: &mut VideoQueueTable,
    restore_analyze: bool,
) -> (r: Vec<String>)
    requires
        stored.wf(),
    ensures
        restore_analyze ==> views_of(r@).to_set() == stored@.dom() && views_of(r@).no_duplicates(),
        !restore_analyze ==> r@.len() == 0,
        final(table).wf(),
        final(table)@ == Map::<Seq<char>, QueueRowView>::empty(),
        final(videos).wf(),
        final(videos)@ == Map::<(Seq<char>, VideoQueueKind), (VideoQueueStage, Seq<char>)>::empty(),
{
    AnalysisQueue::clear(table);
    clear_all(videos);
    let mut out: Vec<String> = Vec::new();
    if !restore_analyze {
        return out;
    }
    let ghost es = stored.entries@;
    let mut i: usize = 0;
    while i < stored.entries.len()
        invariant
            es == stored.entries@,
            stored.wf(),
            i <= es.len(),
            views_of(out@) == es.subrange(0, i as int).map_values(|e: (String, crate::analysis_queue::QueuedStatus)| e.0@),
        decreases es.len() - i,
    {
        let ghost before = views_of(out@);
        let h = stored.entries[i].0.clone();
        assert(h@ == es[i as int].0@);
        out.push(h);
        proof {
            assert(views_of(out@) =~= before.push(h@));
            assert(views_of(out@) =~= es.subrange(0, i + 1).map_values(
                |e: (String, crate::analysis_queue::QueuedStatus)| e.0@,
            ));
        }
        i = i + 1;
    }
    proof {
        assert(es.subrange(0, es.len() as int) =~= es);
        lemma_fold_domain(es, entry_key_fn(), entry_status_fn());
        let keys = views_of(out@);
        assert forall|k: Seq<char>| keys.to_set().contains(k) <==> stored@.dom().contains(k) by {
            if keys.to_set().contains(k) {
                let j = choose|j: int| 0 <= j < keys.len() && keys[j] == k;
                assert(entry_key_fn()(es[j]) == k);
                assert(has_key(es, entry_key_fn(), k));
            }
            if stored@.dom().contains(k) {
                let j = choose|j: int| 0 <= j < es.len() && entry_key_fn()(es[j]) == k;
                assert(keys[j] == k);
                assert(keys.contains(k));
            }
        }
        assert(keys.to_set() =~= stored@.dom());
        assert forall|a: int, b: int| 0 <= a < keys.len() && 0 <= b < keys.len() && a != b implies keys[a]
            != keys[b] by {
            if a < b {
                assert(entry_key_fn()(es[a]) != entry_key_fn()(es[b]));
            } else {
                assert(entry_key_fn()(es[b]) != entry_key_fn()(es[a]));
            }
        }
    }
    out
}

/// One successful peer dispatch's timing.
pub struct ParallelAnalysisTimingRow {
    pub file_hash: String,
    pub peer_url: String,
    pub already_analyzed_on_peer: bool,
    pub poll_attempts: Option<u32>,
    pub total_ms: u64,
}

/// The timing row of a successful dispatch, written only when timing is
/// tracked.
pub fn record_timing(
    track_analysis_timings: bool,
    file_hash: &str,
    peer_url: &str,
    already_analyzed_on_peer: bool,
    poll_attempts: Option<u32>,
    total_ms: u64,
) -> (r: Option<ParallelAnalysisTimingRow>)
    ensures
        !track_analysis_timings ==> r is None,
        track_analysis_timings ==> (r matches Some(row) && row.file_hash@ == file_hash@
            && row.peer_url@ == peer_url@ && row.already_analyzed_on_peer == already_analyzed_on_peer
            && row.poll_attempts == poll_attempts && row.total_ms == total_ms),
{
    if !track_analysis_timings {
        return None;
    }
    Some(
        ParallelAnalysisTimingRow {
            file_hash: file_hash.to_owned(),
            peer_url: peer_url.to_owned(),
            already_analyzed_on_peer,
            poll_attempts,
            total_ms,
        },
    )
}

/// The cached answer of a music-video lookup for one song.
pub struct YoutubeVideoLookupRow {
    pub youtube_url: Option<String>,
    pub track_name: Option<String>,
    pub artist_name: Option<String>,
}

} // verus!
