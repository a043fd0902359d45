//! The persisted analysis queue: one row per song hash with its status
//! (`queued`, `analyzing` with a percentage, or `failed` with a message, a
//! `FailureKind` and an acknowledgement flag), the codec between rows and
//! `QueuedStatus`, and the table operations that keep it.

use vstd::prelude::*;

use crate::keyed::{
    contains_string, distinct_keys, fold_map, has_key, lemma_fold_compose, lemma_fold_congruent,
    lemma_fold_domain, lemma_fold_remove, lemma_fold_update, lemma_fold_value, lemma_push_distinct,
    views_of,
};
use crate::text::str_equals;

verus! {

/// Coarse cause for a `QueuedStatus::Failed`, so failures can be grouped
/// without pattern-matching the message.
#[derive(Debug, Clone, Copy, PartialEq, Eq, Structural)]
pub enum FailureKind {
    /// Couldn't convert/fetch the audio into a form analysis can read.
    AudioPrep,
    /// The analyzer server process failed to start.
    ServerStartup,
    /// The analyzer server crashed mid-analysis (after a retry).
    ServerCrash,
    /// CUDA ran out of GPU memory (after a retry).
    GpuOom,
    /// The worker itself reported an error for this song.
    Worker,
    /// The pipeline reported success but no transcript file was produced.
    MissingOutput,
    /// Rows written before the kind was recorded.
    Other,
}

impl FailureKind {
    /// The name a kind is stored under.
    pub open spec fn db_name(self) -> Seq<char> {
        match self {
            FailureKind::AudioPrep => "audio_prep"@,
            FailureKind::ServerStartup => "server_startup"@,
            FailureKind::ServerCrash => "server_crash"@,
            FailureKind::GpuOom => "gpu_oom"@,
            FailureKind::Worker => "worker"@,
            FailureKind::MissingOutput => "missing_output"@,
            FailureKind::Other => "other"@,
        }
    }

    /// The kind a stored name reads back as; unknown names read as `Other`.
    pub open spec fn from_db_name(s: Seq<char>) -> FailureKind {
        if s == "audio_prep"@ {
            FailureKind::AudioPrep
        } else if s == "server_startup"@ {
            FailureKind::ServerStartup
        } else if s == "server_crash"@ {
            FailureKind::ServerCrash
        } else if s == "gpu_oom"@ {
            FailureKind::GpuOom
        } else if s == "worker"@ {
            FailureKind::Worker
        } else if s == "missing_output"@ {
            FailureKind::MissingOutput
        } else {
            FailureKind::Other
        }
    }

    /// The name this kind is stored under.
    pub fn as_db_str(self) -> (r: &'static str)
        ensures
            r@ == self.db_name(),
    {
        match self {
            FailureKind::AudioPrep => "audio_prep",
            FailureKind::ServerStartup => "server_startup",
            FailureKind::ServerCrash => "server_crash",
            FailureKind::GpuOom => "gpu_oom",
            FailureKind::Worker => "worker",
            FailureKind::MissingOutput => "missing_output",
            FailureKind::Other => "other",
        }
    }

    /// The kind a stored name reads back as.
    pub fn from_db_str(s: &str) -> (r: FailureKind)
        ensures
            r == FailureKind::from_db_name(s@),
    {
        if str_equals(s, "audio_prep") {
            FailureKind::AudioPrep
        } else if str_equals(s, "server_startup") {
            FailureKind::ServerStartup
        } else if str_equals(s, "server_crash") {
            FailureKind::ServerCrash
        } else if str_equals(s, "gpu_oom") {
            FailureKind::GpuOom
        } else if str_equals(s, "worker") {
            FailureKind::Worker
        } else if str_equals(s, "missing_output") {
            FailureKind::MissingOutput
        } else {
            FailureKind::Other
        }
    }
}

/// Every kind reads back as itself from the name it is stored under.
pub proof fn lemma_failure_kind_roundtrip(k: FailureKind)
    ensures
        FailureKind::from_db_name(k.db_name()) == k,
{
    reveal_strlit("audio_prep");
    reveal_strlit("server_startup");
    reveal_strlit("server_crash");
    reveal_strlit("gpu_oom");
    reveal_strlit("worker");
    reveal_strlit("missing_output");
    reveal_strlit("other");
    assert("audio_prep"@.len() == 10);
    assert("server_startup"@.len() == 14);
    assert("server_crash"@.len() == 12);
    assert("gpu_oom"@.len() == 7);
    assert("worker"@.len() == 6);
    assert("missing_output"@.len() == 14);
    assert("other"@.len() == 5);
    assert("server_startup"@[0] != "missing_output"@[0]);
}

/// Where a song stands in the analysis queue.
#[derive(Debug)]
pub enum QueuedStatus {
    Queued,
    Analyzing(usize),
    Failed {
        kind: FailureKind,
        message: String,
        /// Set by `acknowledge_failures`; false on every new failure.
        acknowledged: bool,
    },
}

/// A `QueuedStatus` with its message taken by its characters.
pub enum QueuedStatusView {
    Queued,
    Analyzing(usize),
    Failed { kind: FailureKind, message: Seq<char>, acknowledged: bool },
}

impl View for QueuedStatus {
    type V = QueuedStatusView;

    open spec fn view(&self) -> QueuedStatusView {
        match self {
            QueuedStatus::Queued => QueuedStatusView::Queued,
            QueuedStatus::Analyzing(p) => QueuedStatusView::Analyzing(*p),
            QueuedStatus::Failed { kind, message, acknowledged } => QueuedStatusView::Failed {
                kind: *kind,
                message: message@,
                acknowledged: *acknowledged,
            },
        }
    }
}

impl QueuedStatus {
    /// A copy of this status.
    pub fn clone_status(&self) -> (r: QueuedStatus)
        ensures
            r@ == self@,
    {
        match self {
            QueuedStatus::Queued => QueuedStatus::Queued,
            QueuedStatus::Analyzing(p) => QueuedStatus::Analyzing(*p),
            QueuedStatus::Failed { kind, message, acknowledged } => QueuedStatus::Failed {
                kind: *kind,
                message: message.clone(),
                acknowledged: *acknowledged,
            },
        }
    }
}

/// One stored row of the analysis queue.
#[derive(Debug)]
pub struct QueueRow {
    pub file_hash: String,
    pub status: String,
    pub analyzing_pct: Option<i64>,
    pub failed_message: Option<String>,
    pub failed_kind: Option<String>,
    pub failed_acknowledged: bool,
}

/// The columns of a row other than its key, taken by their characters.
pub struct QueueRowView {
    pub status: Seq<char>,
    pub analyzing_pct: Option<i64>,
    pub failed_message: Option<Seq<char>>,
    pub failed_kind: Option<Seq<char>>,
    pub failed_acknowledged: bool,
}

/// An optional string taken by its characters.
pub open spec fn opt_view(o: Option<String>) -> Option<Seq<char>> {
    match o {
        Some(s) => Some(s@),
        None => None,
    }
}

/// A copy of an optional string.
pub fn clone_opt_string(o: &Option<String>) -> (r: Option<String>)
    ensures
        r == *o,
{
    match o {
        Some(s) => Some(s.clone()),
        None => None,
    }
}

impl QueueRow {
    /// The row's primary key: its song hash.
    pub open spec fn key(self) -> Seq<char> {
        self.file_hash@
    }

    /// The row's other columns.
    pub open spec fn columns(self) -> QueueRowView {
        QueueRowView {
            status: self.status@,
            analyzing_pct: self.analyzing_pct,
            failed_message: opt_view(self.failed_message),
            failed_kind: opt_view(self.failed_kind),
            failed_acknowledged: self.failed_acknowledged,
        }
    }

    /// A copy of this row.
    pub fn clone_row(&self) -> (r: QueueRow)
        ensures
            r == *self,
    {
        QueueRow {
            file_hash: self.file_hash.clone(),
            status: self.status.clone(),
            analyzing_pct: self.analyzing_pct,
            failed_message: clone_opt_string(&self.failed_message),
            failed_kind: clone_opt_string(&self.failed_kind),
            failed_acknowledged: self.failed_acknowledged,
        }
    }
}

/// A row's key, as a function.
pub open spec fn row_key_fn() -> spec_fn(QueueRow) -> Seq<char> {
    |r: QueueRow| r.key()
}

/// A row's columns, as a function.
pub open spec fn row_columns_fn() -> spec_fn(QueueRow) -> QueueRowView {
    |r: QueueRow| r.columns()
}

/// The status a row decodes to, as a function.
pub open spec fn row_status_fn() -> spec_fn(QueueRow) -> QueuedStatusView {
    |r: QueueRow| decode_columns(r.columns())
}

/// The status a row reads back as.
pub open spec fn decode_columns(v: QueueRowView) -> QueuedStatusView {
    if v.status == "queued"@ {
        QueuedStatusView::Queued
    } else if v.status == "analyzing"@ {
        QueuedStatusView::Analyzing(
            match v.analyzing_pct {
                Some(p) => p as usize,
                None => 0,
            },
        )
    } else if v.status == "failed"@ {
        QueuedStatusView::Failed {
            kind: match v.failed_kind {
                Some(k) => FailureKind::from_db_name(k),
                None => FailureKind::Other,
            },
            message: match v.failed_message {
                Some(m) => m,
                None => Seq::empty(),
            },
            acknowledged: v.failed_acknowledged,
        }
    } else {
        QueuedStatusView::Queued
    }
}

/// The columns a status is stored as.
pub open spec fn encode_status(s: QueuedStatusView) -> QueueRowView {
    match s {
        QueuedStatusView::Queued => QueueRowView {
            status: "queued"@,
            analyzing_pct: None,
            failed_message: None,
            failed_kind: None,
            failed_acknowledged: false,
        },
        QueuedStatusView::Analyzing(p) => QueueRowView {
            status: "analyzing"@,
            analyzing_pct: Some(p as i64),
            failed_message: None,
            failed_kind: None,
            failed_acknowledged: false,
        },
        QueuedStatusView::Failed { kind, message, acknowledged } => QueueRowView {
            status: "failed"@,
            analyzing_pct: None,
            failed_message: Some(message),
            failed_kind: Some(kind.db_name()),
            failed_acknowledged: acknowledged,
        },
    }
}

/// A status stored as a row reads back as the same status.
pub proof fn lemma_status_roundtrip(s: QueuedStatusView)
    ensures
        decode_columns(encode_status(s)) == s,
{
    reveal_strlit("queued");
    reveal_strlit("analyzing");
    reveal_strlit("failed");
    assert("queued"@.len() == 6);
    assert("analyzing"@.len() == 9);
    assert("failed"@.len() == 6);
    assert("queued"@[0] != "failed"@[0]);
    match s {
        QueuedStatusView::Analyzing(p) => {
            assert(((p as i64) as usize) == p) by (bit_vector);
        },
        QueuedStatusView::Failed { kind, message, acknowledged } => {
            lemma_failure_kind_roundtrip(kind);
        },
        _ => {},
    }
}

impl QueuedStatus {
    /// The row that stores this status for `file_hash`.
    pub fn to_row(&self, file_hash: &str) -> (r: QueueRow)
        ensures
            r.key() == file_hash@,
            r.columns() == encode_status(self@),
    {
        match self {
            QueuedStatus::Queued => QueueRow {
                file_hash: file_hash.to_owned(),
                status: "queued".to_owned(),
                analyzing_pct: None,
                failed_message: None,
                failed_kind: None,
                failed_acknowledged: false,
            },
            QueuedStatus::Analyzing(p) => QueueRow {
                file_hash: file_hash.to_owned(),
                status: "analyzing".to_owned(),
                analyzing_pct: Some(*p as i64),
                failed_message: None,
                failed_kind: None,
                failed_acknowledged: false,
            },
            QueuedStatus::Failed { kind, message, acknowledged } => QueueRow {
                file_hash: file_hash.to_owned(),
                status: "failed".to_owned(),
                analyzing_pct: None,
                failed_message: Some(message.clone()),
                failed_kind: Some(kind.as_db_str().to_owned()),
                failed_acknowledged: *acknowledged,
            },
        }
    }

    /// The status a stored row reads back as.
    pub fn from_row(row: QueueRow) -> (r: QueuedStatus)
        ensures
            r@ == decode_columns(row.columns()),
    {
        let QueueRow {
            file_hash,
            status,
            analyzing_pct,
            failed_message,
            failed_kind,
            failed_acknowledged,
        } = row;
        if str_equals(status.as_str(), "queued") {
            QueuedStatus::Queued
        } else if str_equals(status.as_str(), "analyzing") {
            let p: i64 = match analyzing_pct {
                Some(p) => p,
                None => 0,
            };
            QueuedStatus::Analyzing(p as usize)
        } else if str_equals(status.as_str(), "failed") {
            let kind = match &failed_kind {
                Some(k) => FailureKind::from_db_str(k.as_str()),
                None => FailureKind::Other,
            };
            let message = match failed_message {
                Some(m) => m,
                None => String::new(),
            };
            QueuedStatus::Failed { kind, message, acknowledged: failed_acknowledged }
        } else {
            QueuedStatus::Queued
        }
    }
}

} // verus!

verus! {

/// The decoded analysis queue: each song hash with its status.
pub struct AnalysisQueue {
    pub entries: Vec<(String, QueuedStatus)>,
}

/// An entry's song hash, as a function.
pub open spec fn entry_key_fn() -> spec_fn((String, QueuedStatus)) -> Seq<char> {
    |e: (String, QueuedStatus)| e.0@
}

/// An entry's status, as a function.
pub open spec fn entry_status_fn() -> spec_fn((String, QueuedStatus)) -> QueuedStatusView {
    |e: (String, QueuedStatus)| e.1@
}

/// `rows` stores the entries `q`, one row per entry, in order.
pub open spec fn stores(rows: Seq<QueueRow>, q: Seq<(String, QueuedStatus)>) -> bool {
    &&& rows.len() == q.len()
    &&& forall|i: int|
        0 <= i < rows.len() ==> #[trigger] rows[i].key() == q[i].0@ && rows[i].columns()
            == encode_status(q[i].1@)
}

impl View for AnalysisQueue {
    type V = Map<Seq<char>, QueuedStatusView>;

    open spec fn view(&self) -> Map<Seq<char>, QueuedStatusView> {
        fold_map(self.entries@, entry_key_fn(), entry_status_fn())
    }
}

impl AnalysisQueue {
    /// No hash appears twice.
    pub open spec fn wf(&self) -> bool {
        distinct_keys(self.entries@, entry_key_fn())
    }

    /// Index of the entry for `file_hash`.
    fn find(&self, file_hash: &str) -> (r: Option<usize>)
        ensures
            r matches Some(i) ==> i < self.entries@.len() && self.entries@[i as int].0@
                == file_hash@,
            r is None ==> !has_key(self.entries@, entry_key_fn(), file_hash@),
    {
        let target = file_hash.to_owned();
        let mut i: usize = 0;
        while i < self.entries.len()
            invariant
                target@ == file_hash@,
                i <= self.entries@.len(),
                forall|j: int| 0 <= j < i ==> self.entries@[j].0@ != file_hash@,
            decreases self.entries@.len() - i,
        {
            if self.entries[i].0 == target {
                return Some(i);
            }
            i = i + 1;
        }
        None
    }

    /// Whether the queue has an entry for `file_hash`.
    pub fn contains_hash(&self, file_hash: &str) -> (r: bool)
        ensures
            r == self@.contains_key(file_hash@),
    {
        proof {
            lemma_fold_domain(self.entries@, entry_key_fn(), entry_status_fn());
        }
        let found = self.find(file_hash);
        proof {
            if let Some(i) = found {
                assert((entry_key_fn())(self.entries@[i as int]) == file_hash@);
                assert(has_key(self.entries@, entry_key_fn(), file_hash@));
            }
        }
        found.is_some()
    }

    /// Records `status` for `file_hash`, replacing any earlier one.
    fn set_status(&mut self, file_hash: String, status: QueuedStatus)
        requires
            old(self).wf(),
        ensures
            final(self).wf(),
            final(self)@ == old(self)@.insert(file_hash@, status@),
    {
        let ghost s = self.entries@;
        let ghost e = (file_hash, status);
        match self.find(file_hash.as_str()) {
            Some(i) => {
                proof {
                    lemma_fold_update(s, i as int, e, entry_key_fn(), entry_status_fn());
                }
                self.entries.set(i, (file_hash, status));
            },
            None => {
                proof {
                    lemma_push_distinct(s, e, entry_key_fn());
                    assert(s.push(e).drop_last() =~= s);
                }
                self.entries.push((file_hash, status));
            },
        }
    }

    /// Decodes the stored rows; a later row for a hash replaces an earlier one.
    pub fn load(rows: &Vec<QueueRow>) -> (r: AnalysisQueue)
        ensures
            r.wf(),
            r@ == fold_map(rows@, row_key_fn(), row_status_fn()),
    {
        let mut q = AnalysisQueue { entries: Vec::new() };
        let mut i: usize = 0;
        while i < rows.len()
            invariant
                i <= rows@.len(),
                q.wf(),
                q@ == fold_map(rows@.subrange(0, i as int), row_key_fn(), row_status_fn()),
            decreases rows@.len() - i,
        {
            let row = rows[i].clone_row();
            let hash = row.file_hash.clone();
            let status = QueuedStatus::from_row(row);
            q.set_status(hash, status);
            proof {
                assert(rows@.subrange(0, i + 1).drop_last() =~= rows@.subrange(0, i as int));
            }
            i = i + 1;
        }
        assert(rows@.subrange(0, rows@.len() as int) =~= rows@);
        q
    }

    /// The rows that store this queue, one per entry.
    pub fn save(&self) -> (r: Vec<QueueRow>)
        ensures
            stores(r@, self.entries@),
    {
        let mut rows: Vec<QueueRow> = Vec::new();
        let mut i: usize = 0;
        while i < self.entries.len()
            invariant
                i <= self.entries@.len(),
                stores(rows@, self.entries@.subrange(0, i as int)),
            decreases self.entries@.len() - i,
        {
            let row = self.entries[i].1.to_row(self.entries[i].0.as_str());
            rows.push(row);
            i = i + 1;
        }
        assert(self.entries@.subrange(0, i as int) =~= self.entries@);
        rows
    }

    /// Empties the persisted queue.
    pub fn clear(table: &mut AnalysisQueueTable)
        ensures
            final(table).wf(),
            final(table)@ == Map::<Seq<char>, QueueRowView>::empty(),
    {
        table.rows = Vec::new();
    }
}

/// A saved queue reads back as the same queue.
pub proof fn lemma_saved_queue_loads_back(q: AnalysisQueue, rows: Seq<QueueRow>)
    requires
        stores(rows, q.entries@),
    ensures
        fold_map(rows, row_key_fn(), row_status_fn()) == q@,
{
    assert forall|i: int| 0 <= i < rows.len() implies (row_key_fn())(rows[i]) == (entry_key_fn())(
        q.entries@[i],
    ) && (row_status_fn())(rows[i]) == (entry_status_fn())(q.entries@[i]) by {
        lemma_status_roundtrip(q.entries@[i].1@);
    }
    lemma_fold_congruent(
        rows,
        q.entries@,
        row_key_fn(),
        row_status_fn(),
        entry_key_fn(),
        entry_status_fn(),
    );
}

} // verus!

verus! {

/// The stored analysis-queue table: one row per song hash.
pub struct AnalysisQueueTable {
    pub rows: Vec<QueueRow>,
}

impl View for AnalysisQueueTable {
    type V = Map<Seq<char>, QueueRowView>;

    open spec fn view(&self) -> Map<Seq<char>, QueueRowView> {
        fold_map(self.rows@, row_key_fn(), row_columns_fn())
    }
}

/// The columns of row `k` after acknowledging `kind` failures among `hashes`:
/// only a failed row of that very kind whose hash is listed is acknowledged.
pub open spec fn acknowledged_columns(
    v: QueueRowView,
    k: Seq<char>,
    kind: FailureKind,
    hashes: Seq<Seq<char>>,
) -> QueueRowView {
    if hashes.contains(k) && v.status == "failed"@ && v.failed_kind == Some(kind.db_name()) {
        QueueRowView { failed_acknowledged: true, ..v }
    } else {
        v
    }
}

impl AnalysisQueueTable {
    /// No two rows share a song hash.
    pub open spec fn wf(&self) -> bool {
        distinct_keys(self.rows@, row_key_fn())
    }

    /// An empty table.
    pub fn new() -> (r: AnalysisQueueTable)
        ensures
            r.wf(),
            r@ == Map::<Seq<char>, QueueRowView>::empty(),
    {
        AnalysisQueueTable { rows: Vec::new() }
    }

    fn find(&self, file_hash: &str) -> (r: Option<usize>)
        ensures
            r matches Some(i) ==> i < self.rows@.len() && self.rows@[i as int].key() == file_hash@,
            r is None ==> !has_key(self.rows@, row_key_fn(), file_hash@),
    {
        let target = file_hash.to_owned();
        let mut i: usize = 0;
        while i < self.rows.len()
            invariant
                target@ == file_hash@,
                i <= self.rows@.len(),
                forall|j: int| 0 <= j < i ==> self.rows@[j].key() != file_hash@,
            decreases self.rows@.len() - i,
        {
            if self.rows[i].file_hash == target {
                return Some(i);
            }
            i = i + 1;
        }
        None
    }

    /// Inserts `row`, or overwrites every column of the row with its hash.
    pub fn upsert_row(&mut self, row: QueueRow)
        requires
            old(self).wf(),
        ensures
            final(self).wf(),
            final(self)@ == old(self)@.insert(row.key(), row.columns()),
    {
        let ghost s = self.rows@;
        match self.find(row.file_hash.as_str()) {
            Some(i) => {
                proof {
                    lemma_fold_update(s, i as int, row, row_key_fn(), row_columns_fn());
                }
                self.rows.set(i, row);
            },
            None => {
                proof {
                    lemma_push_distinct(s, row, row_key_fn());
                    assert(s.push(row).drop_last() =~= s);
                }
                self.rows.push(row);
            },
        }
    }

    /// Deletes the row for `file_hash`, if any.
    pub fn delete(&mut self, file_hash: &str)
        requires
            old(self).wf(),
        ensures
            final(self).wf(),
            final(self)@ == old(self)@.remove(file_hash@),
    {
        let ghost s = self.rows@;
        match self.find(file_hash) {
            Some(i) => {
                proof {
                    lemma_fold_remove(s, i as int, row_key_fn(), row_columns_fn());
                }
                self.rows.remove(i);
            },
            None => {
                proof {
                    lemma_fold_domain(s, row_key_fn(), row_columns_fn());
                    assert(self@.remove(file_hash@) =~= self@);
                }
            },
        }
    }

    /// Replaces the whole table by `rows`, written in order.
    pub fn save_rows(&mut self, rows: &Vec<QueueRow>)
        ensures
            final(self).wf(),
            final(self)@ == fold_map(rows@, row_key_fn(), row_columns_fn()),
    {
        self.rows = Vec::new();
        let mut i: usize = 0;
        while i < rows.len()
            invariant
                i <= rows@.len(),
                self.wf(),
                self@ == fold_map(rows@.subrange(0, i as int), row_key_fn(), row_columns_fn()),
            decreases rows@.len() - i,
        {
            self.upsert_row(rows[i].clone_row());
            proof {
                assert(rows@.subrange(0, i + 1).drop_last() =~= rows@.subrange(0, i as int));
            }
            i = i + 1;
        }
        assert(rows@.subrange(0, rows@.len() as int) =~= rows@);
    }
}

/// Records `status` for `file_hash` in the stored queue.
pub fn update_queue_status(table: &mut AnalysisQueueTable, file_hash: &str, status: &QueuedStatus)
    requires
        old(table).wf(),
    ensures
        final(table).wf(),
        final(table)@ == old(table)@.insert(file_hash@, encode_status(status@)),
{
    table.upsert_row(status.to_row(file_hash));
}

/// Drops `file_hash` from the stored queue.
pub fn remove_from_queue(table: &mut AnalysisQueueTable, file_hash: &str)
    requires
        old(table).wf(),
    ensures
        final(table).wf(),
        final(table)@ == old(table)@.remove(file_hash@),
{
    table.delete(file_hash);
}

/// Acknowledges exactly `file_hashes` as `kind` failures: a listed hash
/// that has since failed differently, or isn't failed, is left alone.
pub fn acknowledge_failures(
    table: &mut AnalysisQueueTable,
    kind: FailureKind,
    file_hashes: &Vec<String>,
)
    requires
        old(table).wf(),
    ensures
        final(table).wf(),
        final(table)@.dom() == old(table)@.dom(),
        forall|k: Seq<char>|
            #![trigger final(table)@[k]]
            old(table)@.contains_key(k) ==> final(table)@[k] == acknowledged_columns(
                old(table)@[k],
                k,
                kind,
                views_of(file_hashes@),
            ),
{
    let ghost orig = table.rows@;
    let kind_name = kind.as_db_str();
    let mut i: usize = 0;
    while i < table.rows.len()
        invariant
            table.rows@.len() == orig.len(),
            i <= orig.len(),
            kind_name@ == kind.db_name(),
            distinct_keys(orig, row_key_fn()),
            forall|j: int|
                0 <= j < orig.len() ==> #[trigger] table.rows@[j].key() == orig[j].key(),
            forall|j: int|
                0 <= j < i ==> #[trigger] table.rows@[j].columns() == acknowledged_columns(
                    orig[j].columns(),
                    orig[j].key(),
                    kind,
                    views_of(file_hashes@),
                ),
            forall|j: int| i <= j < orig.len() ==> #[trigger] table.rows@[j] == orig[j],
        decreases orig.len() - i,
    {
        let listed = contains_string(file_hashes, table.rows[i].file_hash.as_str());
        let failed = str_equals(table.rows[i].status.as_str(), "failed");
        let same_kind = match &table.rows[i].failed_kind {
            Some(k) => str_equals(k.as_str(), kind_name),
            None => false,
        };
        if listed && failed && same_kind {
            let mut row = table.rows[i].clone_row();
            row.failed_acknowledged = true;
            table.rows.set(i, row);
        }
        i = i + 1;
    }
    proof {
        let s = table.rows@;
        assert(distinct_keys(s, row_key_fn())) by {
            assert forall|a: int, b: int| 0 <= a < b < s.len() implies s[a].key() != s[b].key() by {
                assert(orig[a].key() != orig[b].key());
            }
        }
        lemma_fold_domain(s, row_key_fn(), row_columns_fn());
        lemma_fold_domain(orig, row_key_fn(), row_columns_fn());
        lemma_fold_value(s, row_key_fn(), row_columns_fn());
        lemma_fold_value(orig, row_key_fn(), row_columns_fn());
        let m1 = fold_map(s, row_key_fn(), row_columns_fn());
        let m0 = fold_map(orig, row_key_fn(), row_columns_fn());
        assert forall|k: Seq<char>| m1.contains_key(k) <==> m0.contains_key(k) by {
            if has_key(s, row_key_fn(), k) {
                let j = choose|j: int| 0 <= j < s.len() && (row_key_fn())(s[j]) == k;
                assert((row_key_fn())(orig[j]) == k);
            }
            if has_key(orig, row_key_fn(), k) {
                let j = choose|j: int| 0 <= j < orig.len() && (row_key_fn())(orig[j]) == k;
                assert((row_key_fn())(s[j]) == k);
            }
        }
        assert(m1.dom() =~= m0.dom());
        assert forall|k: Seq<char>| m0.contains_key(k) implies #[trigger] m1[k]
            == acknowledged_columns(m0[k], k, kind, views_of(file_hashes@)) by {
            let j = choose|j: int| 0 <= j < orig.len() && (row_key_fn())(orig[j]) == k;
            assert(m0[(row_key_fn())(orig[j])] == (row_columns_fn())(orig[j]));
            assert((row_key_fn())(s[j]) == k);
            assert(m1[(row_key_fn())(s[j])] == (row_columns_fn())(s[j]));
        }
    }
}

/// What a reader of the stored queue sees after a status is recorded: the
/// new status for that hash, and every other hash as it was.
pub proof fn lemma_status_write_then_read(
    before: Seq<QueueRow>,
    after: Seq<QueueRow>,
    file_hash: Seq<char>,
    status: QueuedStatusView,
)
    requires
        fold_map(after, row_key_fn(), row_columns_fn()) == fold_map(
            before,
            row_key_fn(),
            row_columns_fn(),
        ).insert(file_hash, encode_status(status)),
    ensures
        fold_map(after, row_key_fn(), row_status_fn()) == fold_map(
            before,
            row_key_fn(),
            row_status_fn(),
        ).insert(file_hash, status),
{
    let f = |v: QueueRowView| decode_columns(v);
    lemma_fold_compose(after, row_key_fn(), row_columns_fn(), f, row_status_fn());
    lemma_fold_compose(before, row_key_fn(), row_columns_fn(), f, row_status_fn());
    lemma_status_roundtrip(status);
    let m = fold_map(before, row_key_fn(), row_columns_fn());
    assert(m.insert(file_hash, encode_status(status)).map_values(f) =~= m.map_values(f).insert(
        file_hash,
        status,
    ));
}

} // verus!

verus! {

/// What a queue entry of the legacy JSON file holds, as far as the import
/// looks at it.
pub struct LegacyEntry {
    /// The entry is a JSON object at all.
    pub is_object: bool,
    /// It has a `Queued` key.
    pub has_queued: bool,
    /// Its `Analyzing` value, when that is an unsigned integer.
    pub analyzing: Option<u64>,
    /// Its `Failed` value, when that is a string.
    pub failed: Option<String>,
}

/// The `(status, analyzing_pct, failed_message)` columns a legacy entry is
/// imported as: `Queued` first, then `Analyzing`, then `Failed`; anything
/// else is queued.
pub fn parse_legacy_queue_status(e: &LegacyEntry) -> (r: (&'static str, Option<i64>, Option<String>))
    ensures
        (!e.is_object || e.has_queued) ==> r.0@ == "queued"@ && r.1 is None && r.2 is None,
        (e.is_object && !e.has_queued) ==> match e.analyzing {
            Some(n) => r.0@ == "analyzing"@ && r.1 == Some(n as i64) && r.2 is None,
            None => match e.failed {
                Some(m) => r.0@ == "failed"@ && r.1 is None && r.2 == Some(m),
                None => r.0@ == "queued"@ && r.1 is None && r.2 is None,
            },
        },
{
    if !e.is_object || e.has_queued {
        return ("queued", None, None);
    }
    if let Some(n) = e.analyzing {
        return ("analyzing", Some(n as i64), None);
    }
    if let Some(m) = &e.failed {
        return ("failed", None, Some(m.clone()));
    }
    ("queued", None, None)
}

/// The row a legacy entry is imported as: no failure kind recorded, not
/// acknowledged.
pub fn legacy_queue_row(file_hash: &str, e: &LegacyEntry) -> (r: QueueRow)
    ensures
        r.file_hash@ == file_hash@,
        r.status@ == parse_legacy_queue_status_spec(*e).0,
        r.analyzing_pct == parse_legacy_queue_status_spec(*e).1,
        r.failed_message == parse_legacy_queue_status_spec(*e).2,
        r.failed_kind is None,
        !r.failed_acknowledged,
{
    let (status, pct, msg) = parse_legacy_queue_status(e);
    QueueRow {
        file_hash: file_hash.to_owned(),
        status: status.to_owned(),
        analyzing_pct: pct,
        failed_message: msg,
        failed_kind: None,
        failed_acknowledged: false,
    }
}

/// The columns `parse_legacy_queue_status` gives, as a value.
pub open spec fn parse_legacy_queue_status_spec(e: LegacyEntry) -> (Seq<char>, Option<i64>, Option<String>) {
    if !e.is_object || e.has_queued {
        ("queued"@, None, None)
    } else {
        match e.analyzing {
            Some(n) => ("analyzing"@, Some(n as i64), None),
            None => match e.failed {
                Some(m) => ("failed"@, None, Some(m)),
                None => ("queued"@, None, None),
            },
        }
    }
}

} // verus!
