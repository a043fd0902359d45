//! Offloading queued analyses to a peer instance ("parallel analysis"):
//! the peer's URLs, the liveness flags that pause and resume the
//! dispatcher, and the decisions of one dispatch (ping, match the song on
//! the peer by its library-relative path, trigger, poll, fetch, finalize).
//! The HTTP calls themselves are made by the caller, which hands each
//! result back as an event.

use vstd::prelude::*;

use crate::analysis_queue::{QueuedStatus, QueuedStatusView};
use crate::keyed::{contains_string, views_of};
use crate::text::{chars_of, has_prefix, starts_with, str_equals, string_of, trim, trimmed};

verus! {

/// How many times the peer is polled for completion, 3 s apart (20 min).
pub const POLL_ATTEMPTS: u32 = 400;

/// `s` without its trailing `/` characters.
pub open spec fn trim_end_slashes(s: Seq<char>) -> Seq<char>
    decreases s.len(),
{
    if s.len() > 0 && s.last() == '/' {
        trim_end_slashes(s.drop_last())
    } else {
        s
    }
}

/// The base URL as typed, trimmed, without trailing slashes, and with
/// `http://` in front unless it already names `http://` or `https://`.
pub open spec fn normalized_base(s: Seq<char>) -> Seq<char> {
    let t = trim_end_slashes(trim(s));
    if has_prefix(t, "http://"@) || has_prefix(t, "https://"@) {
        t
    } else {
        "http://"@ + t
    }
}

fn trim_end_slashes_exec(s: &str) -> (r: String)
    ensures
        r@ == trim_end_slashes(s@),
{
    let cs = chars_of(s);
    let mut n: usize = cs.len();
    assert(s@.subrange(0, n as int) =~= s@);
    while n > 0 && cs[n - 1] == '/'
        invariant
            cs@ == s@,
            n <= cs@.len(),
            trim_end_slashes(s@) == trim_end_slashes(s@.subrange(0, n as int)),
        decreases n,
    {
        assert(s@.subrange(0, n as int).drop_last() =~= s@.subrange(0, n - 1));
        n = n - 1;
    }
    proof {
        if n == 0 {
            assert(s@.subrange(0, 0) =~= Seq::<char>::empty());
        }
    }
    string_of(&cs.as_slice()[0..n])
}

/// Users type peer addresses the way a browser accepts them (no scheme);
/// default to `http://` then, and leave an explicit scheme alone.
pub fn normalize_base_url(base_url: &str) -> (r: String)
    ensures
        r@ == normalized_base(base_url@),
{
    let t = trimmed(base_url);
    let t = trim_end_slashes_exec(t.as_str());
    if starts_with(t.as_str(), "http://") || starts_with(t.as_str(), "https://") {
        t
    } else {
        "http://".to_owned().concat(t.as_str())
    }
}

/// `{base}/api/cmd/{name}`.
pub fn cmd_url(base_url: &str, name: &str) -> (r: String)
    ensures
        r@ == normalized_base(base_url@) + "/api/cmd/"@ + name@,
{
    normalize_base_url(base_url).concat("/api/cmd/").concat(name)
}

/// `{base}/media/{file_hash}/{kind}`.
pub fn media_url(base_url: &str, file_hash: &str, kind: &str) -> (r: String)
    ensures
        r@ == normalized_base(base_url@) + "/media/"@ + file_hash@ + "/"@ + kind@,
{
    normalize_base_url(base_url).concat("/media/").concat(file_hash).concat("/").concat(kind)
}

/// `{base}/api/bootstrap`, the liveness check.
pub fn ping_url(base_url: &str) -> (r: String)
    ensures
        r@ == normalized_base(base_url@) + "/api/bootstrap"@,
{
    normalize_base_url(base_url).concat("/api/bootstrap")
}

/// `"{file_name} ({file_hash})"` for log lines, or the bare hash when the
/// song's file name is unknown.
pub fn describe(file_hash: &str, file_name: Option<&str>) -> (r: String)
    ensures
        match file_name {
            Some(n) => r@ == n@ + " ("@ + file_hash@ + ")"@,
            None => r@ == file_hash@,
        },
{
    match file_name {
        Some(n) => n.to_owned().concat(" (").concat(file_hash).concat(")"),
        None => file_hash.to_owned(),
    }
}

/// Liveness of the peer as the dispatcher sees it.
pub struct PeerLink {
    /// A liveness check failed; cleared once the peer is back.
    pub peer_down: bool,
    /// The hourly re-check is running.
    pub backoff_running: bool,
}

/// What the settings page's "ping" button pings: the typed URL, trimmed;
/// nothing when it is blank.
pub fn ping_target(url: &str) -> (r: Option<String>)
    ensures
        trim(url@).len() == 0 ==> r is None,
        trim(url@).len() > 0 ==> (r matches Some(t) && t@ == trim(url@)),
{
    let t = trimmed(url);
    if t.as_str().is_empty() {
        None
    } else {
        Some(t)
    }
}

/// After a manual ping that answered `alive`: a live peer that was marked
/// down is marked up again, and the dispatcher is to be resumed at once
/// (returns whether to resume it).
pub fn manual_ping(link: &mut PeerLink, alive: bool) -> (resume: bool)
    ensures
        resume == (alive && old(link).peer_down),
        final(link).peer_down == (old(link).peer_down && !alive),
        final(link).backoff_running == old(link).backoff_running,
{
    if alive && link.peer_down {
        link.peer_down = false;
        true
    } else {
        false
    }
}

/// Whether a dispatcher may be started: the feature is on, a peer is
/// configured, and the peer isn't known to be down.
pub fn dispatcher_may_start(link: &PeerLink, enabled: bool, has_peer_url: bool) -> (r: bool)
    ensures
        r == (enabled && has_peer_url && !link.peer_down),
{
    enabled && has_peer_url && !link.peer_down
}

/// The `(peer_down, backoff_running)` flags after marking the peer down,
/// and whether a re-check is to be started.
pub open spec fn down_backoff(flags: (bool, bool)) -> ((bool, bool), bool) {
    if flags.1 {
        (flags, false)
    } else {
        ((true, true), true)
    }
}

/// Marks the peer down; returns whether an hourly re-check is to be
/// started (not when one already runs, and then nothing changes).
pub fn enter_down_backoff(link: &mut PeerLink) -> (spawn: bool)
    ensures
        ((final(link).peer_down, final(link).backoff_running), spawn) == down_backoff(
            (old(link).peer_down, old(link).backoff_running),
        ),
        spawn == !old(link).backoff_running,
        spawn ==> final(link).peer_down && final(link).backoff_running,
        !spawn ==> *final(link) == *old(link),
{
    if link.backoff_running {
        return false;
    }
    link.backoff_running = true;
    link.peer_down = true;
    true
}

/// However often the peer is marked down, at most one re-check runs: the
/// second of two markings never starts another.
pub proof fn lemma_single_backoff(flags: (bool, bool))
    ensures
        !down_backoff(down_backoff(flags).0).1,
{
}

/// What an hourly re-check found.
pub enum BackoffCheck {
    /// The feature was turned off or no peer is configured any more.
    Disabled,
    /// The peer was pinged.
    Pinged(bool),
}

/// What the re-check does next.
#[derive(Debug, Clone, Copy, PartialEq, Eq, Structural)]
pub enum BackoffNext {
    /// Stop re-checking; nothing is pending.
    Abandon,
    /// The peer is back: stop re-checking and resume the dispatcher.
    Resume,
    /// Sleep another hour.
    Wait,
}

/// One hourly re-check of a peer marked down.
pub fn backoff_tick(link: &mut PeerLink, check: BackoffCheck) -> (r: BackoffNext)
    ensures
        match check {
            BackoffCheck::Disabled => r == BackoffNext::Abandon && !final(link).peer_down
                && !final(link).backoff_running,
            BackoffCheck::Pinged(true) => r == BackoffNext::Resume && !final(link).peer_down
                && !final(link).backoff_running,
            BackoffCheck::Pinged(false) => r == BackoffNext::Wait && *final(link) == *old(link),
        },
{
    match check {
        BackoffCheck::Disabled => {
            link.peer_down = false;
            link.backoff_running = false;
            BackoffNext::Abandon
        },
        BackoffCheck::Pinged(alive) => {
            if alive {
                link.peer_down = false;
                link.backoff_running = false;
                BackoffNext::Resume
            } else {
                BackoffNext::Wait
            }
        },
    }
}

/// Why a song was handed back to the local queue instead of the peer.
pub enum RejectReason {
    NotInLibrary,
    NotUnderLibraryRoot,
    PeerHasNothing { relative_path: String },
    PeerHashDiffers { relative_path: String, peer_hash: String },
    TriggerFailed,
    DisabledMidPoll,
    PeerReportedFailure { message: String },
    GoneButNotAnalyzed,
    GoneWithoutSongRow,
    ConfirmFailed,
    TimedOut,
    FetchFailed,
    FinalizeFailed,
}

/// How a dispatch ended.
pub enum DispatchOutcome {
    /// The peer's finished analysis was pulled down and finalized.
    Done,
    /// The song goes back to the local queue; other songs may still go to
    /// the peer.
    Rejected(RejectReason),
    /// The peer is unreachable; the dispatcher stops.
    PeerDown,
}

/// A peer call that failed: unreachable (the whole peer is down) or
/// anything else (only this song is unfit).
#[derive(Debug, Clone, Copy, PartialEq, Eq, Structural)]
pub enum PeerError {
    Unreachable,
    Other,
}

/// A song as the peer reports it.
pub struct PeerSong {
    pub file_hash: String,
    pub is_analyzed: bool,
}

/// The local song being dispatched.
pub struct LocalSong {
    /// Its full local path, recorded with a mismatch.
    pub path: String,
    /// Its path relative to the library root; `None` when the library is
    /// not folder-sourced or the file isn't under the root.
    pub relative_path: Option<String>,
}

/// What the outside work of the current stage reported.
pub enum DispatchEvent {
    Pinged(bool),
    LocalSongLoaded(Option<LocalSong>),
    PeerLookedUp(Result<Option<PeerSong>, PeerError>),
    Triggered(Result<(), PeerError>),
    /// Parallel analysis was turned off before a poll.
    PollDisabled,
    Polled(Result<Option<QueuedStatus>, PeerError>),
    FinishConfirmed(Result<Option<PeerSong>, PeerError>),
    Fetched(bool),
    Finalized(bool),
}

/// The outside work to do next.
pub enum DispatchNext {
    LoadLocalSong,
    /// Look the song up on the peer by this library-relative path.
    LookupPeer(String),
    /// Ask the peer to analyze the song.
    Trigger,
    /// Sleep, then poll the peer's queue.
    Poll,
    /// Ask the peer for its song row, to confirm the analysis finished.
    ConfirmFinish,
    /// Download the peer's results.
    Fetch,
    /// Finalize the downloaded results locally.
    Finalize,
    Finish(DispatchOutcome),
}

/// The effects of one step, performed in this order before `next`.
pub struct DispatchStep {
    /// Record a mismatch for the song: `Some(h)` when the peer has another
    /// hash `h` at the path, `None` when it has nothing there.
    pub record_mismatch: Option<Option<String>>,
    /// Clear a recorded mismatch: the peer has this very song.
    pub clear_mismatch: bool,
    /// Record `Analyzing(pct)` on the song's local queue row.
    pub mark_analyzing: Option<usize>,
    /// Hand the song back to the front of the local queue.
    pub return_to_front: bool,
    /// Record the dispatch's timing: whether the peer had already analyzed
    /// the song, and which poll confirmed completion.
    pub record_timing: Option<(bool, Option<u32>)>,
    pub next: DispatchNext,
}

/// Where a dispatch stands.
#[derive(Debug, Clone, Copy, PartialEq, Eq, Structural)]
pub enum DispatchStage {
    Ping,
    LoadLocal,
    LookupPeer,
    Trigger,
    Poll,
    ConfirmFinish,
    Fetch,
    Finalize,
    Done,
}

/// One song's dispatch to the peer.
pub struct Dispatch {
    pub file_hash: String,
    pub stage: DispatchStage,
    pub local_path: String,
    pub relative_path: String,
    /// Polls made so far.
    pub polls: u32,
    pub already_analyzed_on_peer: bool,
    /// The poll that confirmed completion.
    pub poll_attempts: Option<u32>,
}

impl Dispatch {
    /// Starts a dispatch of `file_hash`: the peer is pinged first.
    pub fn new(file_hash: &str) -> (r: Dispatch)
        ensures
            r.file_hash@ == file_hash@,
            r.stage == DispatchStage::Ping,
            r.polls == 0,
            !r.already_analyzed_on_peer,
            r.poll_attempts is None,
    {
        Dispatch {
            file_hash: file_hash.to_owned(),
            stage: DispatchStage::Ping,
            local_path: String::new(),
            relative_path: String::new(),
            polls: 0,
            already_analyzed_on_peer: false,
            poll_attempts: None,
        }
    }

    /// Polls stay within their limit; a dispatch waiting to poll has one left.
    pub open spec fn wf(&self) -> bool {
        &&& self.polls <= POLL_ATTEMPTS
        &&& (self.stage == DispatchStage::Poll ==> self.polls < POLL_ATTEMPTS)
    }

    /// Whether `event` is what the current stage waits for.
    pub open spec fn expects(&self, event: DispatchEvent) -> bool {
        match self.stage {
            DispatchStage::Ping => event is Pinged,
            DispatchStage::LoadLocal => event is LocalSongLoaded,
            DispatchStage::LookupPeer => event is PeerLookedUp,
            DispatchStage::Trigger => event is Triggered,
            DispatchStage::Poll => event is PollDisabled || event is Polled,
            DispatchStage::ConfirmFinish => event is FinishConfirmed,
            DispatchStage::Fetch => event is Fetched,
            DispatchStage::Finalize => event is Finalized,
            DispatchStage::Done => false,
        }
    }
}

/// A step with no side effect but `next`.
pub open spec fn plain(s: DispatchStep) -> bool {
    &&& s.record_mismatch is None
    &&& !s.clear_mismatch
    &&& s.mark_analyzing is None
    &&& !s.return_to_front
    &&& s.record_timing is None
}

/// A step that hands the song back and ends rejected.
pub open spec fn handed_back(s: DispatchStep) -> bool {
    &&& s.return_to_front
    &&& s.mark_analyzing is None
    &&& s.record_timing is None
    &&& s.next matches DispatchNext::Finish(DispatchOutcome::Rejected(_))
}

fn step(next: DispatchNext) -> (r: DispatchStep)
    ensures
        plain(r),
        r.next == next,
{
    DispatchStep {
        record_mismatch: None,
        clear_mismatch: false,
        mark_analyzing: None,
        return_to_front: false,
        record_timing: None,
        next,
    }
}

fn hand_back(reason: RejectReason) -> (r: DispatchStep)
    ensures
        handed_back(r),
        r.record_mismatch is None,
        !r.clear_mismatch,
        r.next == DispatchNext::Finish(DispatchOutcome::Rejected(reason)),
{
    DispatchStep {
        record_mismatch: None,
        clear_mismatch: false,
        mark_analyzing: None,
        return_to_front: true,
        record_timing: None,
        next: DispatchNext::Finish(DispatchOutcome::Rejected(reason)),
    }
}

/// The step after a poll that neither ended nor moved on: poll again while
/// attempts are left, else give up (timed out).
pub open spec fn poll_again_or_time_out(polls: u32, s: DispatchStep, stage: DispatchStage) -> bool {
    if polls < POLL_ATTEMPTS {
        &&& s.next is Poll
        &&& !s.return_to_front
        &&& s.record_timing is None
        &&& stage == DispatchStage::Poll
    } else {
        &&& s.return_to_front
        &&& s.record_timing is None
        &&& s.next matches DispatchNext::Finish(DispatchOutcome::Rejected(RejectReason::TimedOut))
        &&& stage == DispatchStage::Done
    }
}

/// Advances a dispatch by one step.
///
/// An unreachable peer ends the dispatch as `PeerDown` at any stage
/// (the dispatcher hands the song back itself); a local song that left the
/// library ends it without handing back; every other failure hands the
/// song back to the local queue. A song is only offloaded once the peer has
/// the same hash at the same library-relative path; a mismatch is recorded.
pub fn dispatch_one(d: &mut Dispatch, event: DispatchEvent) -> (r: DispatchStep)
    requires
        old(d).wf(),
        old(d).expects(event),
    ensures
        final(d).wf(),
        final(d).file_hash == old(d).file_hash,
        !(event is LocalSongLoaded) ==> final(d).local_path == old(d).local_path
            && final(d).relative_path == old(d).relative_path,
        !(event matches DispatchEvent::PeerLookedUp(Ok(Some(song))) && song.file_hash@
            == old(d).file_hash@) ==> final(d).already_analyzed_on_peer == old(
            d,
        ).already_analyzed_on_peer,
        !(event matches DispatchEvent::FinishConfirmed(Ok(Some(song))) && song.is_analyzed)
            ==> final(d).poll_attempts == old(d).poll_attempts,
        !(event matches DispatchEvent::Triggered(Ok(_))) && !(event is Polled) ==> final(d).polls
            == old(d).polls,
        match event {
            DispatchEvent::Pinged(alive) => plain(r) && if alive {
                final(d).stage == DispatchStage::LoadLocal && r.next is LoadLocalSong
            } else {
                final(d).stage == DispatchStage::Done && r.next matches DispatchNext::Finish(
                    DispatchOutcome::PeerDown,
                )
            },
            DispatchEvent::LocalSongLoaded(local) => match local {
                None => plain(r) && final(d).stage == DispatchStage::Done && r.next matches DispatchNext::Finish(
                    DispatchOutcome::Rejected(RejectReason::NotInLibrary),
                ),
                Some(song) => match song.relative_path {
                    None => handed_back(r) && r.record_mismatch is None && final(d).stage
                        == DispatchStage::Done && r.next matches DispatchNext::Finish(
                        DispatchOutcome::Rejected(RejectReason::NotUnderLibraryRoot),
                    ),
                    Some(rel) => {
                        &&& plain(r)
                        &&& final(d).stage == DispatchStage::LookupPeer
                        &&& final(d).local_path@ == song.path@
                        &&& final(d).relative_path@ == rel@
                        &&& r.next matches DispatchNext::LookupPeer(p)
                        &&& p@ == rel@
                    },
                },
            },
            DispatchEvent::PeerLookedUp(found) => match found {
                Err(PeerError::Unreachable) => plain(r) && final(d).stage == DispatchStage::Done
                    && r.next matches DispatchNext::Finish(DispatchOutcome::PeerDown),
                Err(PeerError::Other) | Ok(None) => {
                    &&& handed_back(r)
                    &&& r.record_mismatch == Some(None::<String>)
                    &&& final(d).stage == DispatchStage::Done
                    &&& r.next matches DispatchNext::Finish(
                        DispatchOutcome::Rejected(RejectReason::PeerHasNothing { relative_path }),
                    )
                    &&& relative_path@ == old(d).relative_path@
                },
                Ok(Some(song)) => if song.file_hash@ != old(d).file_hash@ {
                    &&& handed_back(r)
                    &&& r.record_mismatch matches Some(Some(h))
                    &&& h@ == song.file_hash@
                    &&& final(d).stage == DispatchStage::Done
                    &&& r.next matches DispatchNext::Finish(
                        DispatchOutcome::Rejected(RejectReason::PeerHashDiffers { relative_path, peer_hash }),
                    )
                    &&& peer_hash@ == song.file_hash@
                    &&& relative_path@ == old(d).relative_path@
                } else {
                    &&& r.clear_mismatch
                    &&& r.record_mismatch is None
                    &&& r.mark_analyzing is None
                    &&& !r.return_to_front
                    &&& r.record_timing is None
                    &&& final(d).already_analyzed_on_peer == song.is_analyzed
                    &&& if song.is_analyzed {
                        final(d).stage == DispatchStage::Fetch && r.next is Fetch
                    } else {
                        final(d).stage == DispatchStage::Trigger && r.next is Trigger
                    }
                },
            },
            DispatchEvent::Triggered(res) => match res {
                Ok(()) => {
                    &&& r.mark_analyzing == Some(0usize)
                    &&& r.record_mismatch is None
                    &&& !r.clear_mismatch
                    &&& !r.return_to_front
                    &&& r.record_timing is None
                    &&& final(d).stage == DispatchStage::Poll
                    &&& final(d).polls == 0
                    &&& r.next is Poll
                },
                Err(PeerError::Unreachable) => plain(r) && final(d).stage == DispatchStage::Done
                    && r.next matches DispatchNext::Finish(DispatchOutcome::PeerDown),
                Err(PeerError::Other) => handed_back(r) && r.record_mismatch is None
                    && final(d).stage == DispatchStage::Done && r.next matches DispatchNext::Finish(
                    DispatchOutcome::Rejected(RejectReason::TriggerFailed),
                ),
            },
            DispatchEvent::PollDisabled => handed_back(r) && r.record_mismatch is None
                && final(d).stage == DispatchStage::Done && r.next matches DispatchNext::Finish(
                DispatchOutcome::Rejected(RejectReason::DisabledMidPoll),
            ),
            DispatchEvent::Polled(res) => {
                let polls = (old(d).polls + 1) as u32;
                &&& final(d).polls == polls
                &&& r.record_mismatch is None
                &&& !r.clear_mismatch
                &&& match res {
                    Err(PeerError::Unreachable) => r.next matches DispatchNext::Finish(
                        DispatchOutcome::PeerDown,
                    ) && plain(r) && final(d).stage == DispatchStage::Done,
                    Ok(Some(QueuedStatus::Failed { message, .. })) => {
                        &&& handed_back(r)
                        &&& final(d).stage == DispatchStage::Done
                        &&& r.next matches DispatchNext::Finish(
                            DispatchOutcome::Rejected(RejectReason::PeerReportedFailure { message: m }),
                        )
                        &&& m@ == message@
                    },
                    Ok(None) => plain(r) && final(d).stage == DispatchStage::ConfirmFinish
                        && r.next is ConfirmFinish,
                    Ok(Some(QueuedStatus::Analyzing(pct))) => r.mark_analyzing == Some(pct)
                        && poll_again_or_time_out(polls, r, final(d).stage),
                    Ok(Some(QueuedStatus::Queued)) | Err(PeerError::Other) => r.mark_analyzing is None
                        && poll_again_or_time_out(polls, r, final(d).stage),
                }
            },
            DispatchEvent::FinishConfirmed(res) => match res {
                Ok(Some(song)) => if song.is_analyzed {
                    &&& plain(r)
                    &&& final(d).stage == DispatchStage::Fetch
                    &&& final(d).poll_attempts == Some(old(d).polls)
                    &&& r.next is Fetch
                } else {
                    handed_back(r) && r.record_mismatch is None && final(d).stage == DispatchStage::Done
                        && r.next matches DispatchNext::Finish(
                        DispatchOutcome::Rejected(RejectReason::GoneButNotAnalyzed),
                    )
                },
                Ok(None) => handed_back(r) && r.record_mismatch is None && final(d).stage
                    == DispatchStage::Done && r.next matches DispatchNext::Finish(
                    DispatchOutcome::Rejected(RejectReason::GoneWithoutSongRow),
                ),
                Err(PeerError::Unreachable) => plain(r) && final(d).stage == DispatchStage::Done
                    && r.next matches DispatchNext::Finish(DispatchOutcome::PeerDown),
                Err(PeerError::Other) => handed_back(r) && r.record_mismatch is None && final(d).stage
                    == DispatchStage::Done && r.next matches DispatchNext::Finish(
                    DispatchOutcome::Rejected(RejectReason::ConfirmFailed),
                ),
            },
            DispatchEvent::Fetched(ok) => if ok {
                plain(r) && final(d).stage == DispatchStage::Finalize && r.next is Finalize
            } else {
                handed_back(r) && r.record_mismatch is None && final(d).stage == DispatchStage::Done
                    && r.next matches DispatchNext::Finish(
                    DispatchOutcome::Rejected(RejectReason::FetchFailed),
                )
            },
            DispatchEvent::Finalized(ok) => if ok {
                &&& r.record_timing == Some(
                    (old(d).already_analyzed_on_peer, old(d).poll_attempts),
                )
                &&& r.record_mismatch is None
                &&& !r.clear_mismatch
                &&& r.mark_analyzing is None
                &&& !r.return_to_front
                &&& final(d).stage == DispatchStage::Done
                &&& r.next matches DispatchNext::Finish(DispatchOutcome::Done)
            } else {
                handed_back(r) && r.record_mismatch is None && final(d).stage == DispatchStage::Done
                    && r.next matches DispatchNext::Finish(
                    DispatchOutcome::Rejected(RejectReason::FinalizeFailed),
                )
            },
        },
{
    match event {
        DispatchEvent::Pinged(alive) => {
            if alive {
                d.stage = DispatchStage::LoadLocal;
                step(DispatchNext::LoadLocalSong)
            } else {
                d.stage = DispatchStage::Done;
                step(DispatchNext::Finish(DispatchOutcome::PeerDown))
            }
        },
        DispatchEvent::LocalSongLoaded(local) => match local {
            None => {
                d.stage = DispatchStage::Done;
                step(DispatchNext::Finish(DispatchOutcome::Rejected(RejectReason::NotInLibrary)))
            },
            Some(song) => match song.relative_path {
                None => {
                    d.stage = DispatchStage::Done;
                    hand_back(RejectReason::NotUnderLibraryRoot)
                },
                Some(rel) => {
                    d.stage = DispatchStage::LookupPeer;
                    d.local_path = song.path;
                    d.relative_path = rel.clone();
                    step(DispatchNext::LookupPeer(rel))
                },
            },
        },
        DispatchEvent::PeerLookedUp(found) => {
            let found = match found {
                Err(PeerError::Unreachable) => {
                    d.stage = DispatchStage::Done;
                    return step(DispatchNext::Finish(DispatchOutcome::PeerDown));
                },
                Err(PeerError::Other) => None,
                Ok(s) => s,
            };
            d.stage = DispatchStage::Done;
            match found {
                None => {
                    let mut s = hand_back(
                        RejectReason::PeerHasNothing { relative_path: d.relative_path.clone() },
                    );
                    s.record_mismatch = Some(None);
                    s
                },
                Some(song) => {
                    if !str_equals(song.file_hash.as_str(), d.file_hash.as_str()) {
                        let mut s = hand_back(
                            RejectReason::PeerHashDiffers {
                                relative_path: d.relative_path.clone(),
                                peer_hash: song.file_hash.clone(),
                            },
                        );
                        s.record_mismatch = Some(Some(song.file_hash));
                        s
                    } else {
                        d.already_analyzed_on_peer = song.is_analyzed;
                        let mut s = if song.is_analyzed {
                            d.stage = DispatchStage::Fetch;
                            step(DispatchNext::Fetch)
                        } else {
                            d.stage = DispatchStage::Trigger;
                            step(DispatchNext::Trigger)
                        };
                        s.clear_mismatch = true;
                        s
                    }
                },
            }
        },
        DispatchEvent::Triggered(res) => match res {
            Ok(()) => {
                d.stage = DispatchStage::Poll;
                d.polls = 0;
                let mut s = step(DispatchNext::Poll);
                s.mark_analyzing = Some(0);
                s
            },
            Err(PeerError::Unreachable) => {
                d.stage = DispatchStage::Done;
                step(DispatchNext::Finish(DispatchOutcome::PeerDown))
            },
            Err(PeerError::Other) => {
                d.stage = DispatchStage::Done;
                hand_back(RejectReason::TriggerFailed)
            },
        },
        DispatchEvent::PollDisabled => {
            d.stage = DispatchStage::Done;
            hand_back(RejectReason::DisabledMidPoll)
        },
        DispatchEvent::Polled(res) => {
            d.polls = d.polls + 1;
            let mut mark: Option<usize> = None;
            match res {
                Err(PeerError::Unreachable) => {
                    d.stage = DispatchStage::Done;
                    return step(DispatchNext::Finish(DispatchOutcome::PeerDown));
                },
                Ok(Some(QueuedStatus::Failed { message, .. })) => {
                    d.stage = DispatchStage::Done;
                    return hand_back(RejectReason::PeerReportedFailure { message });
                },
                Ok(None) => {
                    d.stage = DispatchStage::ConfirmFinish;
                    return step(DispatchNext::ConfirmFinish);
                },
                Ok(Some(QueuedStatus::Analyzing(pct))) => {
                    mark = Some(pct);
                },
                Ok(Some(QueuedStatus::Queued)) => {},
                Err(PeerError::Other) => {},
            }
            let mut s = if d.polls < POLL_ATTEMPTS {
                step(DispatchNext::Poll)
            } else {
                d.stage = DispatchStage::Done;
                hand_back(RejectReason::TimedOut)
            };
            s.mark_analyzing = mark;
            s
        },
        DispatchEvent::FinishConfirmed(res) => {
            d.stage = DispatchStage::Done;
            match res {
                Ok(Some(song)) => {
                    if song.is_analyzed {
                        d.stage = DispatchStage::Fetch;
                        d.poll_attempts = Some(d.polls);
                        step(DispatchNext::Fetch)
                    } else {
                        hand_back(RejectReason::GoneButNotAnalyzed)
                    }
                },
                Ok(None) => hand_back(RejectReason::GoneWithoutSongRow),
                Err(PeerError::Unreachable) => step(DispatchNext::Finish(DispatchOutcome::PeerDown)),
                Err(PeerError::Other) => hand_back(RejectReason::ConfirmFailed),
            }
        },
        DispatchEvent::Fetched(ok) => {
            if ok {
                d.stage = DispatchStage::Finalize;
                step(DispatchNext::Finalize)
            } else {
                d.stage = DispatchStage::Done;
                hand_back(RejectReason::FetchFailed)
            }
        },
        DispatchEvent::Finalized(ok) => {
            d.stage = DispatchStage::Done;
            if ok {
                let mut s = step(DispatchNext::Finish(DispatchOutcome::Done));
                s.record_timing = Some((d.already_analyzed_on_peer, d.poll_attempts));
                s
            } else {
                hand_back(RejectReason::FinalizeFailed)
            }
        },
    }
}

/// Whether the peer's results are usable: the transcript landed, and so
/// did both stems unless the transcript says it has none. The lyrics file
/// is best-effort and never decides.
pub fn fetch_results(transcript_ok: bool, no_stems: bool, instrumental_ok: bool, vocals_ok: bool) -> (r:
    bool)
    ensures
        r == (transcript_ok && (no_stems || (instrumental_ok && vocals_ok))),
{
    if !transcript_ok {
        return false;
    }
    if !no_stems && (!instrumental_ok || !vocals_ok) {
        return false;
    }
    true
}

/// The dispatcher's bookkeeping after one dispatch: a rejected song is
/// skipped for the rest of this run; returns whether to go on (not after
/// the peer went down).
pub fn dispatcher_after(skip: &mut Vec<String>, file_hash: &str, outcome: &DispatchOutcome) -> (go_on:
    bool)
    ensures
        go_on == !(outcome is PeerDown),
        outcome is Rejected ==> views_of(final(skip)@).to_set() == views_of(old(skip)@).to_set().insert(
            file_hash@,
        ),
        !(outcome is Rejected) ==> final(skip)@ == old(skip)@,
{
    match outcome {
        DispatchOutcome::Done => true,
        DispatchOutcome::PeerDown => false,
        DispatchOutcome::Rejected(_) => {
            let ghost before = views_of(skip@);
            if !contains_string(skip, file_hash) {
                skip.push(file_hash.to_owned());
                proof {
                    assert(views_of(skip@) =~= before.push(file_hash@));
                    before.lemma_push_to_set_commute(file_hash@);
                }
            } else {
                proof {
                    assert(before.to_set().insert(file_hash@) =~= before.to_set());
                }
            }
            true
        },
    }
}

} // verus!
