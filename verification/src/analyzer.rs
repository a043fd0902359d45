//! The in-memory analysis queue and its single worker: which hashes wait,
//! which one is being analyzed, whether the worker runs, and the per-hash
//! intents (stems only, forced transcription) a queued job carries.

use std::collections::VecDeque;

use vstd::prelude::*;

use crate::analysis_queue::AnalysisQueue;
use crate::keyed::{contains_string, views_of};

verus! {

/// `s` with every occurrence of `x` removed, order otherwise kept.
pub open spec fn without(s: Seq<Seq<char>>, x: Seq<char>) -> Seq<Seq<char>>
    decreases s.len(),
{
    if s.len() == 0 {
        s
    } else if s.last() == x {
        without(s.drop_last(), x)
    } else {
        without(s.drop_last(), x).push(s.last())
    }
}

/// Removing `x` drops exactly `x` and keeps the rest without duplicates.
pub proof fn lemma_without(s: Seq<Seq<char>>, x: Seq<char>)
    ensures
        forall|y: Seq<char>| #[trigger] without(s, x).contains(y) <==> (y != x && s.contains(y)),
        s.no_duplicates() ==> without(s, x).no_duplicates(),
        !s.contains(x) ==> without(s, x) == s,
    decreases s.len(),
{
    if s.len() > 0 {
        let p = s.drop_last();
        lemma_without(p, x);
        assert forall|y: Seq<char>| #[trigger] without(s, x).contains(y) <==> (y != x && s.contains(
            y,
        )) by {
            assert(s =~= p.push(s.last()));
            assert(without(s, x) == if s.last() == x {
                without(p, x)
            } else {
                without(p, x).push(s.last())
            });
            assert(without(p, x).contains(y) <==> (y != x && p.contains(y)));
            assert(s.contains(y) <==> (p.contains(y) || y == s.last())) by {
                if s.contains(y) && y != s.last() {
                    let i = choose|i: int| 0 <= i < s.len() && s[i] == y;
                    assert(i != s.len() - 1);
                    assert(p[i] == y);
                }
                if p.contains(y) {
                    let i = choose|i: int| 0 <= i < p.len() && p[i] == y;
                    assert(s[i] == y);
                }
                if y == s.last() {
                    assert(s[s.len() - 1] == y);
                }
            }
            if s.last() != x {
                let w = without(p, x);
                assert(w.push(s.last()).contains(y) <==> (w.contains(y) || y == s.last())) by {
                    if w.push(s.last()).contains(y) && y != s.last() {
                        let i = choose|i: int| 0 <= i < w.len() + 1 && w.push(s.last())[i] == y;
                        assert(i != w.len());
                        assert(w[i] == y);
                    }
                    if w.contains(y) {
                        let i = choose|i: int| 0 <= i < w.len() && w[i] == y;
                        assert(w.push(s.last())[i] == y);
                    }
                    if y == s.last() {
                        assert(w.push(s.last())[w.len() as int] == y);
                    }
                }
            }
        }
        if s.no_duplicates() {
            assert(p.no_duplicates()) by {
                assert forall|i: int, j: int| 0 <= i < p.len() && 0 <= j < p.len() && i != j implies p[i]
                    != p[j] by {
                    assert(s[i] == p[i] && s[j] == p[j]);
                }
            }
            if s.last() != x {
                let w = without(p, x);
                assert(!p.contains(s.last())) by {
                    if p.contains(s.last()) {
                        let i = choose|i: int| 0 <= i < p.len() && p[i] == s.last();
                        assert(s[i] == s[s.len() - 1]);
                    }
                }
                assert(!w.contains(s.last()));
                assert forall|i: int, j: int|
                    0 <= i < w.push(s.last()).len() && 0 <= j < w.push(s.last()).len() && i
                        != j implies w.push(s.last())[i] != w.push(s.last())[j] by {
                    if i == w.len() {
                        assert(w.contains(w.push(s.last())[j]));
                    } else if j == w.len() {
                        assert(w.contains(w.push(s.last())[i]));
                    }
                }
            }
        }
        if !s.contains(x) {
            assert(!p.contains(x)) by {
                if p.contains(x) {
                    let i = choose|i: int| 0 <= i < p.len() && p[i] == x;
                    assert(s[i] == x);
                }
            }
            assert(s.last() != x) by {
                assert(s[s.len() - 1] == s.last());
            }
            assert(p.push(s.last()) =~= s);
        }
    }
}

/// The analyzer's in-memory state.
pub struct AnalyzerState {
    /// Hashes waiting for the worker, front first.
    pub queue: VecDeque<String>,
    /// The hash the worker is analyzing right now.
    pub active_hash: Option<String>,
    pub worker_running: bool,
    /// Hashes whose next analysis must transcribe from scratch.
    pub force_transcribe: Vec<String>,
    /// Hashes whose next analysis only separates stems.
    pub stems_only: Vec<String>,
}

/// An optional string taken by its characters.
pub open spec fn opt_str_view(o: Option<String>) -> Option<Seq<char>> {
    match o {
        Some(s) => Some(s@),
        None => None,
    }
}

/// What `enqueue_one` asks of its caller.
#[derive(Debug, Clone, Copy, PartialEq, Eq, Structural)]
pub struct EnqueueOne {
    /// Store a `Queued` row for the hash.
    pub persist_queued: bool,
    /// Start the worker thread.
    pub start_worker: bool,
}

/// The queue after `enqueue_one`.
pub open spec fn enqueue_one_queue(
    q: Seq<Seq<char>>,
    active: Option<Seq<char>>,
    h: Seq<char>,
    is_usdx: bool,
) -> Seq<Seq<char>> {
    if is_usdx || active == Some(h) || q.contains(h) {
        q
    } else {
        q.push(h)
    }
}

/// Whether `enqueue_all` takes `h` into the queue.
pub open spec fn admissible(
    q: Seq<Seq<char>>,
    active: Option<Seq<char>>,
    persisted: Set<Seq<char>>,
    h: Seq<char>,
) -> bool {
    !persisted.contains(h) && active != Some(h) && !q.contains(h)
}

/// The hashes `enqueue_all` newly queues, in order.
pub open spec fn enqueue_all_added(
    q: Seq<Seq<char>>,
    active: Option<Seq<char>>,
    persisted: Set<Seq<char>>,
    pending: Seq<Seq<char>>,
) -> Seq<Seq<char>>
    decreases pending.len(),
{
    if pending.len() == 0 {
        Seq::empty()
    } else {
        let prev = enqueue_all_added(q, active, persisted, pending.drop_last());
        if admissible(q + prev, active, persisted, pending.last()) {
            prev.push(pending.last())
        } else {
            prev
        }
    }
}

impl AnalyzerState {
    /// The waiting hashes, front first.
    pub open spec fn queue_view(&self) -> Seq<Seq<char>> {
        views_of(self.queue@)
    }

    /// The hash being analyzed, if any.
    pub open spec fn active_view(&self) -> Option<Seq<char>> {
        opt_str_view(self.active_hash)
    }

    /// No hash waits twice; the active hash doesn't also wait; an idle
    /// worker has no active hash; waiting work always has a worker.
    pub open spec fn wf(&self) -> bool {
        &&& self.queue_view().no_duplicates()
        &&& (self.active_view() matches Some(a) ==> !self.queue_view().contains(a))
        &&& (!self.worker_running ==> self.active_hash is None)
        &&& (self.queue@.len() > 0 ==> self.worker_running)
        &&& views_of(self.force_transcribe@).no_duplicates()
        &&& views_of(self.stems_only@).no_duplicates()
    }

    /// An idle analyzer with nothing queued.
    pub fn new() -> (r: AnalyzerState)
        ensures
            r.wf(),
            r.queue@.len() == 0,
            r.active_hash is None,
            !r.worker_running,
            r.force_transcribe@.len() == 0,
            r.stems_only@.len() == 0,
    {
        let r = AnalyzerState {
            queue: VecDeque::new(),
            active_hash: None,
            worker_running: false,
            force_transcribe: Vec::new(),
            stems_only: Vec::new(),
        };
        assert(r.queue_view() =~= Seq::<Seq<char>>::empty());
        assert(views_of(r.force_transcribe@) =~= Seq::<Seq<char>>::empty());
        assert(views_of(r.stems_only@) =~= Seq::<Seq<char>>::empty());
        r
    }

    /// Whether the active hash is `h`.
    fn is_active(&self, h: &str) -> (r: bool)
        ensures
            r == (self.active_view() == Some(h@)),
    {
        match &self.active_hash {
            Some(a) => crate::text::str_equals(a.as_str(), h),
            None => false,
        }
    }
}

/// Appends `h` to a vector of distinct strings when it is new.
fn insert_distinct(v: &mut Vec<String>, h: &str)
    requires
        views_of(old(v)@).no_duplicates(),
    ensures
        views_of(final(v)@).no_duplicates(),
        views_of(final(v)@) == if views_of(old(v)@).contains(h@) {
            views_of(old(v)@)
        } else {
            views_of(old(v)@).push(h@)
        },
{
    if !contains_string(v, h) {
        let ghost before = views_of(v@);
        v.push(h.to_owned());
        assert(views_of(v@) =~= before.push(h@));
        assert(views_of(v@).no_duplicates()) by {
            let w = views_of(v@);
            assert forall|i: int, j: int| 0 <= i < w.len() && 0 <= j < w.len() && i != j implies w[i]
                != w[j] by {
                if i == before.len() {
                    assert(before.contains(w[j]));
                } else if j == before.len() {
                    assert(before.contains(w[i]));
                }
            }
        }
    }
}

/// Whether the queue holds a hash with the characters of `s`.
fn queue_contains(q: &VecDeque<String>, s: &str) -> (r: bool)
    ensures
        r == views_of(q@).contains(s@),
{
    let mut i: usize = 0;
    let target = s.to_owned();
    while i < q.len()
        invariant
            target@ == s@,
            i <= q@.len(),
            forall|j: int| 0 <= j < i ==> q@[j]@ != s@,
        decreases q@.len() - i,
    {
        if q[i] == target {
            assert(views_of(q@)[i as int] == s@);
            return true;
        }
        i = i + 1;
    }
    proof {
        if views_of(q@).contains(s@) {
            let j = choose|j: int| 0 <= j < views_of(q@).len() && views_of(q@)[j] == s@;
            assert(q@[j]@ == s@);
        }
    }
    false
}

/// Puts `h` at the back of a queue of distinct hashes when it is new.
fn queue_push_distinct(q: &mut VecDeque<String>, h: &str)
    requires
        views_of(old(q)@).no_duplicates(),
    ensures
        views_of(final(q)@).no_duplicates(),
        views_of(final(q)@) == if views_of(old(q)@).contains(h@) {
            views_of(old(q)@)
        } else {
            views_of(old(q)@).push(h@)
        },
{
    if !queue_contains(q, h) {
        let ghost before = views_of(q@);
        q.push_back(h.to_owned());
        assert(views_of(q@) =~= before.push(h@));
        assert(views_of(q@).no_duplicates()) by {
            let w = views_of(q@);
            assert forall|i: int, j: int| 0 <= i < w.len() && 0 <= j < w.len() && i != j implies w[i]
                != w[j] by {
                if i == before.len() {
                    assert(before.contains(w[j]));
                } else if j == before.len() {
                    assert(before.contains(w[i]));
                }
            }
        }
    }
}

/// Removes every occurrence of `h` from the queue, the rest in order.
fn queue_remove(q: &mut VecDeque<String>, h: &str)
    ensures
        views_of(final(q)@) == without(views_of(old(q)@), h@),
{
    let ghost orig = views_of(q@);
    let mut kept: VecDeque<String> = VecDeque::new();
    let mut i: usize = 0;
    let target = h.to_owned();
    while i < q.len()
        invariant
            target@ == h@,
            orig == views_of(q@),
            i <= q@.len(),
            views_of(kept@) == without(orig.subrange(0, i as int), h@),
        decreases q@.len() - i,
    {
        let ghost pre = orig.subrange(0, i as int);
        assert(orig.subrange(0, i + 1).drop_last() =~= pre);
        assert(orig.subrange(0, i + 1).last() == q@[i as int]@);
        if q[i] != target {
            let ghost k0 = views_of(kept@);
            kept.push_back(q[i].clone());
            assert(views_of(kept@) =~= k0.push(q@[i as int]@));
        }
        i = i + 1;
    }
    assert(orig.subrange(0, q@.len() as int) =~= orig);
    *q = kept;
}

/// Removes every occurrence of `h`; tells whether there was one.
fn remove_string(v: &mut Vec<String>, h: &str) -> (found: bool)
    ensures
        views_of(final(v)@) == without(views_of(old(v)@), h@),
        found == views_of(old(v)@).contains(h@),
{
    let ghost orig = views_of(v@);
    let mut kept: Vec<String> = Vec::new();
    let mut found = false;
    let mut i: usize = 0;
    let target = h.to_owned();
    while i < v.len()
        invariant
            target@ == h@,
            orig == views_of(v@),
            i <= v@.len(),
            views_of(kept@) == without(orig.subrange(0, i as int), h@),
            found == orig.subrange(0, i as int).contains(h@),
        decreases v@.len() - i,
    {
        let ghost pre = orig.subrange(0, i as int);
        assert(orig.subrange(0, i + 1).drop_last() =~= pre);
        assert(orig.subrange(0, i + 1).last() == v@[i as int]@);
        if v[i] == target {
            found = true;
        } else {
            let ghost k0 = views_of(kept@);
            kept.push(v[i].clone());
            assert(views_of(kept@) =~= k0.push(v@[i as int]@));
        }
        proof {
            let post = orig.subrange(0, i + 1);
            assert(post =~= pre.push(v@[i as int]@));
            if post.contains(h@) && !pre.contains(h@) {
                let j = choose|j: int| 0 <= j < post.len() && post[j] == h@;
                assert(j == i);
            }
            if pre.contains(h@) {
                let j = choose|j: int| 0 <= j < pre.len() && pre[j] == h@;
                assert(post[j] == h@);
            }
        }
        i = i + 1;
    }
    assert(orig.subrange(0, v@.len() as int) =~= orig);
    *v = kept;
    found
}

/// Queues `file_hash` for analysis unless it's a USDX song, is being
/// analyzed right now, or already waits; then makes sure a worker runs.
pub fn enqueue_one(state: &mut AnalyzerState, file_hash: &str, is_usdx: bool) -> (r: EnqueueOne)
    requires
        old(state).wf(),
    ensures
        final(state).wf(),
        final(state).queue_view() == enqueue_one_queue(
            old(state).queue_view(),
            old(state).active_view(),
            file_hash@,
            is_usdx,
        ),
        final(state).active_hash == old(state).active_hash,
        final(state).force_transcribe == old(state).force_transcribe,
        final(state).stems_only == old(state).stems_only,
        r.persist_queued == (final(state).queue_view() != old(state).queue_view()),
        r.start_worker == (!old(state).worker_running && final(state).worker_running),
        final(state).worker_running == (old(state).worker_running || final(state).queue@.len() > 0),
{
    if is_usdx {
        return EnqueueOne { persist_queued: false, start_worker: false };
    }
    if state.is_active(file_hash) {
        return EnqueueOne { persist_queued: false, start_worker: false };
    }
    let mut persist_queued = false;
    if !queue_contains(&state.queue, file_hash) {
        queue_push_distinct(&mut state.queue, file_hash);
        persist_queued = true;
        assert(state.queue_view().len() == old(state).queue_view().len() + 1);
    }
    let start_worker = ensure_worker_running(state);
    EnqueueOne { persist_queued, start_worker }
}

/// Starts the worker when work waits and none runs.
pub fn ensure_worker_running(state: &mut AnalyzerState) -> (started: bool)
    ensures
        started == (!old(state).worker_running && old(state).queue@.len() > 0),
        final(state).worker_running == (old(state).worker_running || old(state).queue@.len() > 0),
        final(state).queue == old(state).queue,
        final(state).active_hash == old(state).active_hash,
        final(state).force_transcribe == old(state).force_transcribe,
        final(state).stems_only == old(state).stems_only,
{
    if !state.worker_running && state.queue.len() > 0 {
        state.worker_running = true;
        true
    } else {
        false
    }
}

/// Queueing one hash twice is queueing it once.
pub proof fn lemma_enqueue_one_idempotent(
    q: Seq<Seq<char>>,
    active: Option<Seq<char>>,
    h: Seq<char>,
    is_usdx: bool,
)
    ensures
        enqueue_one_queue(enqueue_one_queue(q, active, h, is_usdx), active, h, is_usdx)
            == enqueue_one_queue(q, active, h, is_usdx),
{
    let q1 = enqueue_one_queue(q, active, h, is_usdx);
    if !(is_usdx || active == Some(h) || q.contains(h)) {
        assert(q1[q.len() as int] == h);
    }
}

} // verus!

verus! {

/// Queues every pending hash that isn't already in the stored queue, being
/// analyzed, or waiting; returns the newly queued hashes (each needs a
/// stored `Queued` row) and whether the worker must be started.
pub fn enqueue_all(state: &mut AnalyzerState, stored: &AnalysisQueue, pending: &Vec<String>) -> (r: (
    Vec<String>,
    bool,
))
    requires
        old(state).wf(),
    ensures
        final(state).wf(),
        views_of(r.0@) == enqueue_all_added(
            old(state).queue_view(),
            old(state).active_view(),
            stored@.dom(),
            views_of(pending@),
        ),
        final(state).queue_view() == old(state).queue_view() + views_of(r.0@),
        final(state).active_hash == old(state).active_hash,
        final(state).force_transcribe == old(state).force_transcribe,
        final(state).stems_only == old(state).stems_only,
        r.1 == (!old(state).worker_running && final(state).queue@.len() > 0),
        final(state).worker_running == (old(state).worker_running || final(state).queue@.len() > 0),
{
    let ghost q0 = state.queue_view();
    let ghost pv = views_of(pending@);
    let mut newly: Vec<String> = Vec::new();
    let mut i: usize = 0;
    while i < pending.len()
        invariant
            pv == views_of(pending@),
            i <= pending@.len(),
            views_of(newly@) == enqueue_all_added(
                q0,
                state.active_view(),
                stored@.dom(),
                pv.subrange(0, i as int),
            ),
            state.queue_view() == q0 + views_of(newly@),
            state.queue_view().no_duplicates(),
            state.active_view() matches Some(a) ==> !state.queue_view().contains(a),
            state.active_hash == old(state).active_hash,
            state.worker_running == old(state).worker_running,
            state.force_transcribe == old(state).force_transcribe,
            state.stems_only == old(state).stems_only,
            old(state).wf(),
        decreases pending@.len() - i,
    {
        let h = &pending[i];
        proof {
            assert(pv.subrange(0, i + 1).drop_last() =~= pv.subrange(0, i as int));
            assert(pv.subrange(0, i + 1).last() == h@);
        }
        let in_stored = stored.contains_hash(h.as_str());
        if !in_stored && !state.is_active(h.as_str()) && !queue_contains(&state.queue, h.as_str()) {
            let ghost nv = views_of(newly@);
            queue_push_distinct(&mut state.queue, h.as_str());
            newly.push(h.clone());
            assert(views_of(newly@) =~= nv.push(h@));
            assert(state.queue_view() =~= q0 + views_of(newly@));
        }
        i = i + 1;
    }
    assert(pv.subrange(0, pending@.len() as int) =~= pv);
    let start = ensure_worker_running(state);
    (newly, start)
}

/// Drops `file_hash` from the waiting work; the caller also deletes its
/// stored row, so a worker never picks it up again.
pub fn remove_from_queue_one(state: &mut AnalyzerState, file_hash: &str)
    requires
        old(state).wf(),
    ensures
        final(state).wf(),
        final(state).queue_view() == without(old(state).queue_view(), file_hash@),
        !final(state).queue_view().contains(file_hash@),
        final(state).active_hash == old(state).active_hash,
        final(state).worker_running == old(state).worker_running,
        final(state).force_transcribe == old(state).force_transcribe,
        final(state).stems_only == old(state).stems_only,
{
    proof {
        lemma_without(old(state).queue_view(), file_hash@);
    }
    queue_remove(&mut state.queue, file_hash);
    proof {
        if state.queue@.len() > 0 {
            assert(state.queue_view()[0] == state.queue@[0]@);
            assert(state.queue_view().contains(state.queue_view()[0]));
            assert(without(old(state).queue_view(), file_hash@).contains(state.queue_view()[0]));
            assert(old(state).queue_view().contains(state.queue_view()[0]));
        }
    }
}

/// `s` with every hash of `hs` removed.
pub open spec fn without_all(s: Seq<Seq<char>>, hs: Seq<Seq<char>>) -> Seq<Seq<char>>
    decreases hs.len(),
{
    if hs.len() == 0 {
        s
    } else {
        without(without_all(s, hs.drop_last()), hs.last())
    }
}

/// Removes every hash of `file_hashes` from the waiting work; returns how
/// many hashes were given (each needs its stored row deleted).
pub fn remove_from_queue_all(state: &mut AnalyzerState, file_hashes: &Vec<String>) -> (n: usize)
    requires
        old(state).wf(),
    ensures
        final(state).wf(),
        n == file_hashes@.len(),
        final(state).queue_view() == without_all(old(state).queue_view(), views_of(file_hashes@)),
        forall|i: int|
            0 <= i < file_hashes@.len() ==> !final(state).queue_view().contains(
                #[trigger] file_hashes@[i]@,
            ),
        final(state).active_hash == old(state).active_hash,
        final(state).worker_running == old(state).worker_running,
        final(state).force_transcribe == old(state).force_transcribe,
        final(state).stems_only == old(state).stems_only,
{
    let ghost hv = views_of(file_hashes@);
    let mut i: usize = 0;
    while i < file_hashes.len()
        invariant
            hv == views_of(file_hashes@),
            i <= file_hashes@.len(),
            state.wf(),
            state.queue_view() == without_all(old(state).queue_view(), hv.subrange(0, i as int)),
            forall|j: int| 0 <= j < i ==> !state.queue_view().contains(#[trigger] file_hashes@[j]@),
            state.active_hash == old(state).active_hash,
            state.worker_running == old(state).worker_running,
            state.force_transcribe == old(state).force_transcribe,
            state.stems_only == old(state).stems_only,
        decreases file_hashes@.len() - i,
    {
        proof {
            assert(hv.subrange(0, i + 1).drop_last() =~= hv.subrange(0, i as int));
            assert(hv.subrange(0, i + 1).last() == file_hashes@[i as int]@);
            lemma_without(state.queue_view(), file_hashes@[i as int]@);
        }
        remove_from_queue_one(state, file_hashes[i].as_str());
        i = i + 1;
    }
    assert(hv.subrange(0, file_hashes@.len() as int) =~= hv);
    file_hashes.len()
}

/// Marks `file_hash` so its next analysis only separates stems, keeping the
/// transcript built from provided LRC.
pub fn mark_stems_only(state: &mut AnalyzerState, file_hash: &str)
    requires
        old(state).wf(),
    ensures
        final(state).wf(),
        views_of(final(state).stems_only@).contains(file_hash@),
        forall|h: Seq<char>|
            views_of(old(state).stems_only@).contains(h) ==> views_of(
                final(state).stems_only@,
            ).contains(h),
        final(state).queue == old(state).queue,
        final(state).active_hash == old(state).active_hash,
        final(state).worker_running == old(state).worker_running,
        final(state).force_transcribe == old(state).force_transcribe,
{
    insert_distinct(&mut state.stems_only, file_hash);
    proof {
        let v = views_of(state.stems_only@);
        if !views_of(old(state).stems_only@).contains(file_hash@) {
            assert(v[v.len() - 1] == file_hash@);
        }
        assert forall|h: Seq<char>|
            views_of(old(state).stems_only@).contains(h) implies v.contains(h) by {
            let j = choose|j: int|
                0 <= j < views_of(old(state).stems_only@).len() && views_of(
                    old(state).stems_only@,
                )[j] == h;
            assert(v[j] == h);
        }
    }
}

/// Marks `file_hash` so its next analysis transcribes from scratch.
pub fn mark_force_transcribe(state: &mut AnalyzerState, file_hash: &str)
    requires
        old(state).wf(),
    ensures
        final(state).wf(),
        views_of(final(state).force_transcribe@) == if views_of(
            old(state).force_transcribe@,
        ).contains(file_hash@) {
            views_of(old(state).force_transcribe@)
        } else {
            views_of(old(state).force_transcribe@).push(file_hash@)
        },
        final(state).queue == old(state).queue,
        final(state).active_hash == old(state).active_hash,
        final(state).worker_running == old(state).worker_running,
        final(state).stems_only == old(state).stems_only,
{
    insert_distinct(&mut state.force_transcribe, file_hash);
}

/// Takes the stems-only mark of a job: the one for `file_hash`, else (only
/// when there was none) the one for `initial_hash`, the hash the song had
/// before it was rekeyed.
pub fn take_stems_only(state: &mut AnalyzerState, file_hash: &str, initial_hash: &str) -> (r: bool)
    requires
        old(state).wf(),
    ensures
        final(state).wf(),
        r == (views_of(old(state).stems_only@).contains(file_hash@) || views_of(
            old(state).stems_only@,
        ).contains(initial_hash@)),
        views_of(final(state).stems_only@) == if views_of(old(state).stems_only@).contains(
            file_hash@,
        ) {
            without(views_of(old(state).stems_only@), file_hash@)
        } else {
            without(views_of(old(state).stems_only@), initial_hash@)
        },
        final(state).queue == old(state).queue,
        final(state).active_hash == old(state).active_hash,
        final(state).worker_running == old(state).worker_running,
        final(state).force_transcribe == old(state).force_transcribe,
{
    proof {
        lemma_without(views_of(state.stems_only@), file_hash@);
        lemma_without(views_of(state.stems_only@), initial_hash@);
    }
    if remove_string(&mut state.stems_only, file_hash) {
        true
    } else {
        remove_string(&mut state.stems_only, initial_hash)
    }
}

/// Takes the forced-transcription mark of `file_hash`.
pub fn take_force_transcribe(state: &mut AnalyzerState, file_hash: &str) -> (r: bool)
    requires
        old(state).wf(),
    ensures
        final(state).wf(),
        r == views_of(old(state).force_transcribe@).contains(file_hash@),
        views_of(final(state).force_transcribe@) == without(
            views_of(old(state).force_transcribe@),
            file_hash@,
        ),
        final(state).queue == old(state).queue,
        final(state).active_hash == old(state).active_hash,
        final(state).worker_running == old(state).worker_running,
        final(state).stems_only == old(state).stems_only,
{
    proof {
        lemma_without(views_of(state.force_transcribe@), file_hash@);
    }
    remove_string(&mut state.force_transcribe, file_hash)
}

/// The worker's next job: the front of the queue becomes the active hash;
/// with nothing left the worker stops.
pub fn claim_next(state: &mut AnalyzerState) -> (r: Option<String>)
    requires
        old(state).wf(),
        old(state).worker_running,
    ensures
        final(state).wf(),
        old(state).queue@.len() == 0 ==> r is None && !final(state).worker_running
            && final(state).active_hash is None && final(state).queue@.len() == 0,
        old(state).queue@.len() > 0 ==> r is Some && r->0@ == old(state).queue_view()[0]
            && final(state).active_view() == Some(r->0@) && final(state).queue_view()
            == old(state).queue_view().drop_first() && final(state).worker_running,
        final(state).force_transcribe == old(state).force_transcribe,
        final(state).stems_only == old(state).stems_only,
{
    if state.queue.len() == 0 {
        state.worker_running = false;
        state.active_hash = None;
        return None;
    }
    let ghost q0 = state.queue_view();
    let h = match state.queue.pop_front() {
        Some(h) => h,
        None => {
            return None;
        },
    };
    assert(state.queue_view() =~= q0.drop_first());
    assert(!state.queue_view().contains(h@)) by {
        if state.queue_view().contains(h@) {
            let j = choose|j: int| 0 <= j < state.queue_view().len() && state.queue_view()[j] == h@;
            assert(q0[j + 1] == q0[0]);
        }
    }
    assert(state.queue_view().no_duplicates()) by {
        let w = state.queue_view();
        assert forall|i: int, j: int| 0 <= i < w.len() && 0 <= j < w.len() && i != j implies w[i]
            != w[j] by {
            assert(w[i] == q0[i + 1] && w[j] == q0[j + 1]);
        }
    }
    state.active_hash = Some(h.clone());
    Some(h)
}

/// The worker finished its job.
pub fn finish_active(state: &mut AnalyzerState)
    requires
        old(state).wf(),
    ensures
        final(state).wf(),
        final(state).active_hash is None,
        final(state).queue == old(state).queue,
        final(state).worker_running == old(state).worker_running,
        final(state).force_transcribe == old(state).force_transcribe,
        final(state).stems_only == old(state).stems_only,
{
    state.active_hash = None;
}

} // verus!

verus! {

/// What a reanalysis asks of its caller, in order: delete the song's cached
/// analysis (all of it when `full`, else its transcripts and lyrics file),
/// record `language_override` (when given) for the hash, mark the song
/// unanalyzed with its analysis-derived fields reset, then act on `enqueue`.
pub struct ReanalyzePlan {
    pub full: bool,
    pub language_override: Option<String>,
    pub enqueue: EnqueueOne,
}

/// A language worth recording as an override: a given, non-empty one.
pub open spec fn nonempty_language(language: Option<String>) -> Option<String> {
    match language {
        Some(l) => if l@.len() > 0 {
            Some(l)
        } else {
            None
        },
        None => None,
    }
}

fn nonempty_language_exec(language: Option<String>) -> (r: Option<String>)
    ensures
        r == nonempty_language(language),
{
    match language {
        Some(l) => if l.as_str().is_empty() {
            None
        } else {
            Some(l)
        },
        None => None,
    }
}

/// The plan starts the worker thread.
pub open spec fn starts_worker(p: Option<ReanalyzePlan>) -> bool {
    p matches Some(x) && x.enqueue.start_worker
}

fn reanalyze(
    state: &mut AnalyzerState,
    file_hash: &str,
    full: bool,
    language_override: Option<String>,
) -> (r: ReanalyzePlan)
    requires
        old(state).wf(),
    ensures
        final(state).wf(),
        final(state).queue_view() == enqueue_one_queue(
            old(state).queue_view(),
            old(state).active_view(),
            file_hash@,
            false,
        ),
        final(state).active_hash == old(state).active_hash,
        final(state).force_transcribe == old(state).force_transcribe,
        final(state).stems_only == old(state).stems_only,
        final(state).worker_running == (old(state).worker_running || final(state).queue@.len() > 0),
        r.full == full,
        r.language_override == language_override,
        r.enqueue.persist_queued == (final(state).queue_view() != old(state).queue_view()),
        r.enqueue.start_worker == (!old(state).worker_running && final(state).worker_running),
{
    let enqueue = enqueue_one(state, file_hash, false);
    ReanalyzePlan { full, language_override, enqueue }
}

/// Drops the song's cached analysis and queues it again, transcript only
/// (lyrics refetched), optionally under a new language; nothing for USDX.
pub fn reanalyze_transcript(
    state: &mut AnalyzerState,
    file_hash: &str,
    language: Option<String>,
    is_usdx: bool,
) -> (r: Option<ReanalyzePlan>)
    requires
        old(state).wf(),
    ensures
        final(state).wf(),
        final(state).worker_running == (old(state).worker_running || starts_worker(r)),
        starts_worker(r) ==> !old(state).worker_running,
        is_usdx ==> r is None && *final(state) == *old(state),
        !is_usdx ==> r is Some && !r->0.full && r->0.language_override == nonempty_language(
            language,
        ) && final(state).queue_view() == enqueue_one_queue(
            old(state).queue_view(),
            old(state).active_view(),
            file_hash@,
            false,
        ) && final(state).active_hash == old(state).active_hash
            && final(state).force_transcribe == old(state).force_transcribe
            && final(state).stems_only == old(state).stems_only,
{
    if is_usdx {
        return None;
    }
    let language_override = nonempty_language_exec(language);
    Some(reanalyze(state, file_hash, false, language_override))
}

/// Drops the song's whole cache and queues it again; nothing for USDX.
pub fn reanalyze_full(state: &mut AnalyzerState, file_hash: &str, is_usdx: bool) -> (r: Option<
    ReanalyzePlan,
>)
    requires
        old(state).wf(),
    ensures
        final(state).wf(),
        final(state).worker_running == (old(state).worker_running || starts_worker(r)),
        starts_worker(r) ==> !old(state).worker_running,
        is_usdx ==> r is None && *final(state) == *old(state),
        !is_usdx ==> r is Some && r->0.full && r->0.language_override is None
            && final(state).queue_view() == enqueue_one_queue(
            old(state).queue_view(),
            old(state).active_view(),
            file_hash@,
            false,
        ) && final(state).active_hash == old(state).active_hash
            && final(state).force_transcribe == old(state).force_transcribe
            && final(state).stems_only == old(state).stems_only,
{
    if is_usdx {
        return None;
    }
    Some(reanalyze(state, file_hash, true, None))
}

/// Marks the song for transcription from scratch (skipping any lyrics
/// lookup) and reanalyzes its transcript; nothing for USDX.
pub fn reanalyze_force_transcribe(state: &mut AnalyzerState, file_hash: &str, is_usdx: bool) -> (r:
    Option<ReanalyzePlan>)
    requires
        old(state).wf(),
    ensures
        final(state).wf(),
        final(state).worker_running == (old(state).worker_running || starts_worker(r)),
        starts_worker(r) ==> !old(state).worker_running,
        is_usdx ==> r is None && *final(state) == *old(state),
        !is_usdx ==> views_of(final(state).force_transcribe@) == if views_of(
            old(state).force_transcribe@,
        ).contains(file_hash@) {
            views_of(old(state).force_transcribe@)
        } else {
            views_of(old(state).force_transcribe@).push(file_hash@)
        },
        !is_usdx ==> r is Some && !r->0.full && r->0.language_override is None
            && views_of(final(state).force_transcribe@).contains(file_hash@)
            && final(state).queue_view() == enqueue_one_queue(
            old(state).queue_view(),
            old(state).active_view(),
            file_hash@,
            false,
        ) && final(state).active_hash == old(state).active_hash
            && final(state).stems_only == old(state).stems_only,
{
    if is_usdx {
        return None;
    }
    mark_force_transcribe(state, file_hash);
    proof {
        let v = views_of(state.force_transcribe@);
        if v.len() > 0 && v.last() == file_hash@ {
            assert(v[v.len() - 1] == file_hash@);
        }
    }
    Some(reanalyze(state, file_hash, false, None))
}

/// What a realignment asks of its caller, in order: record
/// `language_override` (when given), rebuild the lyrics file from the
/// transcript if none exists, delete the transcripts, mark the song
/// unanalyzed under `language`, then act on `enqueue`.
pub struct RealignPlan {
    pub language_override: Option<String>,
    pub language: Option<String>,
    pub enqueue: EnqueueOne,
}

/// Realigns the song's lyrics: keeps the lyrics text, drops the timing,
/// queues it again; the song keeps `language` or else its previous one.
pub fn realign(
    state: &mut AnalyzerState,
    file_hash: &str,
    language: Option<String>,
    previous_language: Option<String>,
    is_usdx: bool,
) -> (r: Option<RealignPlan>)
    requires
        old(state).wf(),
    ensures
        final(state).wf(),
        is_usdx ==> r is None && *final(state) == *old(state),
        !is_usdx ==> r is Some && r->0.language_override == nonempty_language(language),
        !is_usdx ==> r is Some && opt_str_view(r->0.language_override) == opt_str_view(
            nonempty_language(language),
        ) && r->0.language == (if language is Some {
            language
        } else {
            previous_language
        }) && final(state).queue_view() == enqueue_one_queue(
            old(state).queue_view(),
            old(state).active_view(),
            file_hash@,
            false,
        ) && final(state).active_hash == old(state).active_hash
            && final(state).force_transcribe == old(state).force_transcribe
            && final(state).stems_only == old(state).stems_only,
{
    if is_usdx {
        return None;
    }
    let language_override = match &language {
        Some(l) => if l.as_str().is_empty() {
            None
        } else {
            Some(l.clone())
        },
        None => None,
    };
    let language = match language {
        Some(l) => Some(l),
        None => previous_language,
    };
    let enqueue = enqueue_one(state, file_hash, false);
    Some(RealignPlan { language_override, language, enqueue })
}

/// The analysis-derived fields of a stored song, as a change writes them.
pub struct SongAnalysis {
    pub is_analyzed: bool,
    pub language: Option<String>,
    pub transcript_source: Option<String>,
    pub key: Option<String>,
    pub override_key: Option<String>,
    pub key_offset: i32,
    pub no_stems: bool,
    /// The playback tempo goes back to 1.0.
    pub reset_tempo: bool,
}

/// A song marked unanalyzed under `language`: no transcript source, no
/// key or key override, key offset 0, stems expected, tempo back to 1.0.
pub fn unanalyzed(language: Option<String>) -> (r: SongAnalysis)
    ensures
        !r.is_analyzed,
        r.language == language,
        r.transcript_source is None,
        r.key is None,
        r.override_key is None,
        r.key_offset == 0,
        !r.no_stems,
        r.reset_tempo,
{
    SongAnalysis {
        is_analyzed: false,
        language,
        transcript_source: None,
        key: None,
        override_key: None,
        key_offset: 0,
        no_stems: false,
        reset_tempo: true,
    }
}

/// Deleting a song's cache: never for USDX songs; otherwise the song's
/// analysis fields afterwards (unanalyzed, no language).
pub fn delete_cache(is_usdx: bool) -> (r: Option<SongAnalysis>)
    ensures
        is_usdx <==> r is None,
        r matches Some(a) ==> {
            &&& !a.is_analyzed
            &&& a.language is None
            &&& a.transcript_source is None
            &&& a.key is None
            &&& a.override_key is None
            &&& a.key_offset == 0
            &&& !a.no_stems
            &&& a.reset_tempo
        },
{
    if is_usdx {
        None
    } else {
        Some(unanalyzed(None))
    }
}

/// A song field that re-reading a file's metadata sets.
#[derive(Debug, Clone, Copy, PartialEq, Eq, Structural)]
pub enum SongField {
    Title,
    Artist,
    Album,
    Duration,
    AlbumArt,
    HasLrcFile,
    HasEmbeddedLyrics,
}

/// What a metadata re-read sets: the tags, the duration, the album art and
/// the lyrics-source flags; nothing analysis-derived.
pub open spec fn refreshed_fields() -> Seq<SongField> {
    seq![
        SongField::Title,
        SongField::Artist,
        SongField::Album,
        SongField::Duration,
        SongField::AlbumArt,
        SongField::HasLrcFile,
        SongField::HasEmbeddedLyrics,
    ]
}

/// The fields a metadata refresh re-reads from the song's file: all of
/// `refreshed_fields` for a found, local, non-USDX song (only such a song
/// has a file of its own), none otherwise. The analyzer's queue and the
/// stored queue are not touched (this takes neither).
pub fn refresh_metadata(song: Option<(bool, bool)>) -> (r: Vec<SongField>)
    ensures
        r@ == if song matches Some((is_local_file, is_usdx)) && is_local_file && !is_usdx {
            refreshed_fields()
        } else {
            Seq::<SongField>::empty()
        },
{
    let mut fields: Vec<SongField> = Vec::new();
    let reread = match song {
        Some((is_local_file, is_usdx)) => is_local_file && !is_usdx,
        None => false,
    };
    if reread {
        fields.push(SongField::Title);
        fields.push(SongField::Artist);
        fields.push(SongField::Album);
        fields.push(SongField::Duration);
        fields.push(SongField::AlbumArt);
        fields.push(SongField::HasLrcFile);
        fields.push(SongField::HasEmbeddedLyrics);
        assert(fields@ =~= refreshed_fields());
    } else {
        assert(fields@ =~= Seq::<SongField>::empty());
    }
    fields
}

} // verus!

verus! {

/// Each song's hash with whether it is a USDX song.
pub open spec fn song_flags(songs: Seq<(String, bool)>) -> Seq<(Seq<char>, bool)> {
    songs.map_values(|p: (String, bool)| (p.0@, p.1))
}

/// The queue after `enqueue_one` for each song in turn.
pub open spec fn enqueue_each(
    q: Seq<Seq<char>>,
    active: Option<Seq<char>>,
    items: Seq<(Seq<char>, bool)>,
) -> Seq<Seq<char>>
    decreases items.len(),
{
    if items.len() == 0 {
        q
    } else {
        enqueue_one_queue(
            enqueue_each(q, active, items.drop_last()),
            active,
            items.last().0,
            items.last().1,
        )
    }
}

/// Which single-song reanalysis a bulk action runs.
#[derive(Debug, Clone, Copy, PartialEq, Eq, Structural)]
pub enum BulkReanalysis {
    Full,
    Transcript,
    ForceTranscribe,
}

/// Over a run of plans at most one starts the worker, and only when none
/// ran before: the worker runs afterwards exactly when it ran before or one
/// plan started it, and no two plans start it.
pub open spec fn at_most_one_start(plans: Seq<Option<ReanalyzePlan>>, ran_before: bool, runs_after: bool) -> bool {
    &&& runs_after == (ran_before || exists|j: int| 0 <= j < plans.len() && #[trigger] starts_worker(plans[j]))
    &&& forall|j: int| 0 <= j < plans.len() && #[trigger] starts_worker(plans[j]) ==> !ran_before
    &&& forall|j: int, k: int|
        0 <= j < k < plans.len() && #[trigger] starts_worker(plans[j]) ==> !#[trigger] starts_worker(plans[k])
}

fn reanalyze_each(
    state: &mut AnalyzerState,
    songs: &Vec<(String, bool)>,
    which: BulkReanalysis,
    language: &Option<String>,
) -> (r: Vec<Option<ReanalyzePlan>>)
    requires
        old(state).wf(),
    ensures
        final(state).wf(),
        r@.len() == songs@.len(),
        forall|i: int| 0 <= i < songs@.len() ==> (#[trigger] r@[i] is Some) == !songs@[i].1,
        forall|i: int|
            0 <= i < songs@.len() && r@[i] is Some ==> (#[trigger] r@[i]->0.full) == (which
                == BulkReanalysis::Full),
        forall|i: int|
            0 <= i < songs@.len() && r@[i] is Some ==> (#[trigger] r@[i]->0.language_override) == (
            if which == BulkReanalysis::Transcript {
                nonempty_language(*language)
            } else {
                None
            }),
        final(state).queue_view() == enqueue_each(
            old(state).queue_view(),
            old(state).active_view(),
            song_flags(songs@),
        ),
        final(state).active_hash == old(state).active_hash,
        final(state).stems_only == old(state).stems_only,
        which != BulkReanalysis::ForceTranscribe ==> final(state).force_transcribe == old(
            state,
        ).force_transcribe,
        which == BulkReanalysis::ForceTranscribe ==> forall|x: Seq<char>|
            #[trigger] views_of(final(state).force_transcribe@).contains(x) == (views_of(
                old(state).force_transcribe@,
            ).contains(x) || exists|i: int| 0 <= i < songs@.len() && !songs@[i].1 && x == songs@[i].0@),
        at_most_one_start(r@, old(state).worker_running, final(state).worker_running),
{
    let ghost items = song_flags(songs@);
    let mut plans: Vec<Option<ReanalyzePlan>> = Vec::new();
    let mut i: usize = 0;
    while i < songs.len()
        invariant
            items == song_flags(songs@),
            i <= songs@.len(),
            state.wf(),
            plans@.len() == i,
            forall|j: int| 0 <= j < i ==> (#[trigger] plans@[j] is Some) == !songs@[j].1,
            forall|j: int|
                0 <= j < i && plans@[j] is Some ==> (#[trigger] plans@[j]->0.full) == (which
                    == BulkReanalysis::Full),
            forall|j: int|
                0 <= j < i && plans@[j] is Some ==> (#[trigger] plans@[j]->0.language_override) == (
                if which == BulkReanalysis::Transcript {
                    nonempty_language(*language)
                } else {
                    None
                }),
            state.queue_view() == enqueue_each(
                old(state).queue_view(),
                old(state).active_view(),
                items.subrange(0, i as int),
            ),
            state.active_hash == old(state).active_hash,
            state.stems_only == old(state).stems_only,
            which != BulkReanalysis::ForceTranscribe ==> state.force_transcribe == old(
                state,
            ).force_transcribe,
            which == BulkReanalysis::ForceTranscribe ==> forall|x: Seq<char>|
                #[trigger] views_of(state.force_transcribe@).contains(x) == (views_of(
                    old(state).force_transcribe@,
                ).contains(x) || exists|j: int| 0 <= j < i && !songs@[j].1 && x == songs@[j].0@),
            at_most_one_start(plans@, old(state).worker_running, state.worker_running),
        decreases songs@.len() - i,
    {
        proof {
            assert(items.subrange(0, i + 1).drop_last() =~= items.subrange(0, i as int));
            assert(items.subrange(0, i + 1).last() == (songs@[i as int].0@, songs@[i as int].1));
        }
        let hash = songs[i].0.as_str();
        let usdx = songs[i].1;
        let ghost f0 = views_of(state.force_transcribe@);
        let plan = match which {
            BulkReanalysis::Full => reanalyze_full(state, hash, usdx),
            BulkReanalysis::Transcript => {
                let lang = match language {
                    Some(l) => Some(l.clone()),
                    None => None,
                };
                reanalyze_transcript(state, hash, lang, usdx)
            },
            BulkReanalysis::ForceTranscribe => reanalyze_force_transcribe(state, hash, usdx),
        };
        proof {
            if which == BulkReanalysis::ForceTranscribe {
                let f1 = views_of(state.force_transcribe@);
                assert forall|x: Seq<char>| #[trigger] f1.contains(x) == (views_of(
                    old(state).force_transcribe@,
                ).contains(x) || exists|j: int| 0 <= j < i + 1 && !songs@[j].1 && x == songs@[j].0@) by {
                    if !usdx {
                        if f1.contains(x) && !f0.contains(x) {
                            let k = choose|k: int| 0 <= k < f1.len() && f1[k] == x;
                            assert(k == f0.len());
                            assert(x == songs@[i as int].0@);
                        }
                        if f0.contains(x) {
                            let k = choose|k: int| 0 <= k < f0.len() && f0[k] == x;
                            assert(f1[k] == x);
                        }
                        if x == songs@[i as int].0@ && !f0.contains(x) {
                            assert(f1[f0.len() as int] == x);
                        }
                    }
                }
            }
            let ps = plans@;
            if starts_worker(plan) {
                assert forall|j: int| 0 <= j < ps.len() implies !#[trigger] starts_worker(ps[j]) by {
                }
            }
        }
        let ghost before = plans@;
        plans.push(plan);
        proof {
            assert(plans@.drop_last() =~= before);
            assert(plans@.last() == plan);
        }
        i = i + 1;
    }
    assert(items.subrange(0, songs@.len() as int) =~= items);
    plans
}

/// Bulk full reanalysis: one plan per song (none for USDX songs); the
/// number of songs handled is the plans' count. At most one plan starts the
/// worker, and only when none was running.
pub fn reanalyze_all_full(state: &mut AnalyzerState, songs: &Vec<(String, bool)>) -> (r: Vec<
    Option<ReanalyzePlan>,
>)
    requires
        old(state).wf(),
    ensures
        final(state).wf(),
        r@.len() == songs@.len(),
        forall|i: int| 0 <= i < songs@.len() ==> (#[trigger] r@[i] is Some) == !songs@[i].1,
        forall|i: int| 0 <= i < songs@.len() && r@[i] is Some ==> #[trigger] r@[i]->0.full,
        forall|i: int|
            0 <= i < songs@.len() && r@[i] is Some ==> (#[trigger] r@[i]->0.language_override) is None,
        final(state).queue_view() == enqueue_each(
            old(state).queue_view(),
            old(state).active_view(),
            song_flags(songs@),
        ),
        final(state).active_hash == old(state).active_hash,
        final(state).force_transcribe == old(state).force_transcribe,
        final(state).stems_only == old(state).stems_only,
        at_most_one_start(r@, old(state).worker_running, final(state).worker_running),
{
    reanalyze_each(state, songs, BulkReanalysis::Full, &None)
}

/// Bulk "refetch lyrics and align", optionally under a new language; at
/// most one plan starts the worker, and only when none was running.
pub fn reanalyze_all_transcript(
    state: &mut AnalyzerState,
    songs: &Vec<(String, bool)>,
    language: Option<String>,
) -> (r: Vec<Option<ReanalyzePlan>>)
    requires
        old(state).wf(),
    ensures
        final(state).wf(),
        r@.len() == songs@.len(),
        forall|i: int| 0 <= i < songs@.len() ==> (#[trigger] r@[i] is Some) == !songs@[i].1,
        forall|i: int| 0 <= i < songs@.len() && r@[i] is Some ==> !(#[trigger] r@[i]->0.full),
        forall|i: int|
            0 <= i < songs@.len() && r@[i] is Some ==> (#[trigger] r@[i]->0.language_override)
                == nonempty_language(language),
        final(state).queue_view() == enqueue_each(
            old(state).queue_view(),
            old(state).active_view(),
            song_flags(songs@),
        ),
        final(state).active_hash == old(state).active_hash,
        final(state).force_transcribe == old(state).force_transcribe,
        final(state).stems_only == old(state).stems_only,
        at_most_one_start(r@, old(state).worker_running, final(state).worker_running),
{
    reanalyze_each(state, songs, BulkReanalysis::Transcript, &language)
}

/// Bulk forced transcription; at most one plan starts the worker, and only
/// when none was running.
pub fn reanalyze_all_force_transcribe(state: &mut AnalyzerState, songs: &Vec<(String, bool)>) -> (r:
    Vec<Option<ReanalyzePlan>>)
    requires
        old(state).wf(),
    ensures
        final(state).wf(),
        r@.len() == songs@.len(),
        forall|i: int| 0 <= i < songs@.len() ==> (#[trigger] r@[i] is Some) == !songs@[i].1,
        forall|i: int| 0 <= i < songs@.len() && r@[i] is Some ==> !(#[trigger] r@[i]->0.full),
        forall|i: int|
            0 <= i < songs@.len() && r@[i] is Some ==> (#[trigger] r@[i]->0.language_override) is None,
        final(state).queue_view() == enqueue_each(
            old(state).queue_view(),
            old(state).active_view(),
            song_flags(songs@),
        ),
        final(state).active_hash == old(state).active_hash,
        final(state).stems_only == old(state).stems_only,
        forall|x: Seq<char>|
            #[trigger] views_of(final(state).force_transcribe@).contains(x) == (views_of(
                old(state).force_transcribe@,
            ).contains(x) || exists|i: int| 0 <= i < songs@.len() && !songs@[i].1 && x == songs@[i].0@),
        at_most_one_start(r@, old(state).worker_running, final(state).worker_running),
{
    reanalyze_each(state, songs, BulkReanalysis::ForceTranscribe, &None)
}

/// Bulk realignment: `songs` holds each hash, whether it is USDX, and its
/// previous language.
pub fn realign_all(
    state: &mut AnalyzerState,
    songs: &Vec<(String, bool, Option<String>)>,
    language: Option<String>,
) -> (r: Vec<Option<RealignPlan>>)
    requires
        old(state).wf(),
    ensures
        final(state).wf(),
        r@.len() == songs@.len(),
        forall|i: int| 0 <= i < songs@.len() ==> (#[trigger] r@[i] is Some) == !songs@[i].1,
        forall|i: int|
            0 <= i < songs@.len() && r@[i] is Some ==> (#[trigger] r@[i]->0.language_override)
                == nonempty_language(language),
        forall|i: int|
            0 <= i < songs@.len() && r@[i] is Some ==> (#[trigger] r@[i]->0.language) == (
            if language is Some {
                language
            } else {
                songs@[i].2
            }),
        final(state).queue_view() == enqueue_each(
            old(state).queue_view(),
            old(state).active_view(),
            songs@.map_values(|p: (String, bool, Option<String>)| (p.0@, p.1)),
        ),
        final(state).active_hash == old(state).active_hash,
        final(state).force_transcribe == old(state).force_transcribe,
        final(state).stems_only == old(state).stems_only,
{
    let ghost items = songs@.map_values(|p: (String, bool, Option<String>)| (p.0@, p.1));
    let mut plans: Vec<Option<RealignPlan>> = Vec::new();
    let mut i: usize = 0;
    while i < songs.len()
        invariant
            items == songs@.map_values(|p: (String, bool, Option<String>)| (p.0@, p.1)),
            i <= songs@.len(),
            state.wf(),
            plans@.len() == i,
            forall|j: int| 0 <= j < i ==> (#[trigger] plans@[j] is Some) == !songs@[j].1,
            forall|j: int|
                0 <= j < i && plans@[j] is Some ==> (#[trigger] plans@[j]->0.language_override)
                    == nonempty_language(language),
            forall|j: int|
                0 <= j < i && plans@[j] is Some ==> (#[trigger] plans@[j]->0.language) == (
                if language is Some {
                    language
                } else {
                    songs@[j].2
                }),
            state.queue_view() == enqueue_each(
                old(state).queue_view(),
                old(state).active_view(),
                items.subrange(0, i as int),
            ),
            state.force_transcribe == old(state).force_transcribe,
            state.stems_only == old(state).stems_only,
            state.active_hash == old(state).active_hash,
        decreases songs@.len() - i,
    {
        proof {
            assert(items.subrange(0, i + 1).drop_last() =~= items.subrange(0, i as int));
            assert(items.subrange(0, i + 1).last() == (songs@[i as int].0@, songs@[i as int].1));
        }
        let lang = match &language {
            Some(l) => Some(l.clone()),
            None => None,
        };
        let previous = match &songs[i].2 {
            Some(l) => Some(l.clone()),
            None => None,
        };
        let plan = realign(state, songs[i].0.as_str(), lang, previous, songs[i].1);
        plans.push(plan);
        i = i + 1;
    }
    assert(items.subrange(0, songs@.len() as int) =~= items);
    plans
}

} // verus!
