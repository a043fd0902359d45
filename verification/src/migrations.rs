//! Bringing a stored library up to date: which schema steps run for a
//! stored schema version, which columns an older table still lacks, how
//! imported songs are cut into batches, and where a legacy remote song's
//! cached source file lives.

use vstd::prelude::*;

use crate::keyed::{contains_string, views_of};

verus! {

/// The schema version this library writes.
pub const SCHEMA_VERSION: i32 = 4;

/// The schema steps a store at `stored` still needs, in order: step 1
/// (the base tables) only for a fresh store, then every later step it
/// predates; none once it is current.
pub open spec fn steps_for(stored: i32) -> Seq<u32> {
    if stored >= SCHEMA_VERSION {
        Seq::empty()
    } else {
        let a: Seq<u32> = if stored == 0 {
            seq![1u32]
        } else {
            Seq::empty()
        };
        let b = if stored < 2 {
            a.push(2u32)
        } else {
            a
        };
        let c = if stored < 3 {
            b.push(3u32)
        } else {
            b
        };
        if stored < 4 {
            c.push(4u32)
        } else {
            c
        }
    }
}

/// The schema steps to run for a store at version `stored`; afterwards the
/// store is at `SCHEMA_VERSION`.
pub fn migration_steps(stored: i32) -> (r: Vec<u32>)
    ensures
        r@ == steps_for(stored),
{
    let mut steps: Vec<u32> = Vec::new();
    if stored >= SCHEMA_VERSION {
        return steps;
    }
    if stored == 0 {
        steps.push(1);
    }
    if stored < 2 {
        steps.push(2);
    }
    if stored < 3 {
        steps.push(3);
    }
    if stored < 4 {
        steps.push(4);
    }
    proof {
        assert(steps@ =~= steps_for(stored));
    }
    steps
}

/// Migrating is idempotent: a store already at the current version runs
/// no step, and a fresh store runs every step once, in order.
pub proof fn lemma_migrations_run_once(stored: i32)
    ensures
        stored >= SCHEMA_VERSION ==> steps_for(stored).len() == 0,
        steps_for(0) == seq![1u32, 2u32, 3u32, 4u32],
{
    assert(steps_for(0) =~= seq![1u32, 2u32, 3u32, 4u32]);
}

/// The columns of `wanted` a table with columns `existing` lacks, in order.
pub open spec fn missing(existing: Seq<Seq<char>>, wanted: Seq<Seq<char>>) -> Seq<Seq<char>>
    decreases wanted.len(),
{
    if wanted.len() == 0 {
        Seq::empty()
    } else {
        let prev = missing(existing, wanted.drop_last());
        if existing.contains(wanted.last()) {
            prev
        } else {
            prev.push(wanted.last())
        }
    }
}

/// The columns to add to a table that has the columns `existing`.
pub fn missing_columns(existing: &Vec<String>, wanted: &Vec<String>) -> (r: Vec<String>)
    ensures
        views_of(r@) == missing(views_of(existing@), views_of(wanted@)),
{
    let ghost ev = views_of(existing@);
    let ghost wv = views_of(wanted@);
    let mut out: Vec<String> = Vec::new();
    let mut i: usize = 0;
    assert(views_of(out@) =~= missing(ev, wv.subrange(0, 0)));
    while i < wanted.len()
        invariant
            ev == views_of(existing@),
            wv == views_of(wanted@),
            i <= wanted@.len(),
            views_of(out@) == missing(ev, wv.subrange(0, i as int)),
        decreases wanted@.len() - i,
    {
        assert(wv.subrange(0, i + 1).drop_last() =~= wv.subrange(0, i as int));
        assert(wv.subrange(0, i + 1).last() == wanted@[i as int]@);
        if !contains_string(existing, wanted[i].as_str()) {
            let ghost before = views_of(out@);
            out.push(wanted[i].clone());
            assert(views_of(out@) =~= before.push(wanted@[i as int]@));
        }
        i = i + 1;
    }
    assert(wv.subrange(0, wanted@.len() as int) =~= wv);
    out
}

/// The `(start, end)` bounds of the batches of `batch` songs a list of
/// `total` songs is imported in; the last batch may be shorter.
pub open spec fn batch_bounds(total: nat, batch: nat) -> Seq<(int, int)>
    recommends
        batch > 0,
{
    Seq::new(
        ((total + batch - 1) as int / batch as int) as nat,
        |k: int| (k * batch, if (k + 1) * batch < total {
            (k + 1) * batch
        } else {
            total as int
        }),
    )
}

/// The batches a list of `total` songs is imported in, as `slice::chunks`
/// cuts them.
pub fn import_batches(total: usize, batch: usize) -> (r: Vec<(usize, usize)>)
    requires
        batch > 0,
    ensures
        r@.len() == batch_bounds(total as nat, batch as nat).len(),
        forall|k: int|
            0 <= k < r@.len() ==> (#[trigger] r@[k]).0 == batch_bounds(total as nat, batch as nat)[k].0
                && r@[k].1 == batch_bounds(total as nat, batch as nat)[k].1,
{
    let mut out: Vec<(usize, usize)> = Vec::new();
    let mut start: usize = 0;
    let ghost n = batch_bounds(total as nat, batch as nat).len();
    proof {
        assert(n * batch >= total) by (nonlinear_arith)
            requires
                n == ((total + batch - 1) / batch as int) as nat,
                batch > 0,
        ;
        assert(out@.len() == 0);
        assert(out@.len() * batch == 0) by (nonlinear_arith)
            requires
                out@.len() == 0,
        ;
        if total == 0 {
            assert(((0 + batch - 1) as int / batch as int) == 0) by (nonlinear_arith)
                requires
                    batch > 0,
            ;
        }
    }
    while start < total
        invariant
            batch > 0,
            n == batch_bounds(total as nat, batch as nat).len(),
            n * batch >= total,
            start <= total,
            start < total ==> start == out@.len() * batch,
            start < total ==> out@.len() < n,
            start >= total ==> out@.len() == n,
            forall|k: int|
                0 <= k < out@.len() ==> (#[trigger] out@[k]).0 == k * batch && out@[k].1 == (if (k + 1)
                    * batch < total {
                    (k + 1) * batch
                } else {
                    total as int
                }),
        decreases total - start,
    {
        let end = if total - start > batch {
            start + batch
        } else {
            total
        };
        let ghost k = out@.len() as int;
        out.push((start, end));
        proof {
            assert((k + 1) * batch == k * batch + batch) by (nonlinear_arith);
            assert((k + 1) * batch == start + batch);
            let s2 = start + batch;
            if s2 < total {
                assert((k + 1) < n) by (nonlinear_arith)
                    requires
                        (k + 1) * batch < total,
                        n == ((total + batch - 1) / batch as int) as nat,
                        batch > 0,
                        k >= 0,
                ;
            } else {
                assert(k + 1 >= n) by (nonlinear_arith)
                    requires
                        (k + 1) * batch >= total,
                        n == ((total + batch - 1) / batch as int) as nat,
                        batch > 0,
                        k >= 0,
                ;
                assert(k + 1 <= n);
            }
        }
        start = end;
        proof {
            if end == total {
                assert(start >= total);
            }
        }
    }
    out
}

/// The number of songs the batches `b` hold together.
pub open spec fn batch_total(b: Seq<(int, int)>) -> int
    decreases b.len(),
{
    if b.len() == 0 {
        0
    } else {
        batch_total(b.drop_last()) + (b.last().1 - b.last().0)
    }
}

proof fn lemma_batch_count(total: nat, batch: nat)
    requires
        batch > 0,
    ensures
        batch_bounds(total, batch).len() * batch >= total,
        batch_bounds(total, batch).len() > 0 ==> (batch_bounds(total, batch).len() - 1) * batch
            < total,
{
    let n = batch_bounds(total, batch).len();
    assert(n == ((total + batch - 1) as int / batch as int) as nat);
    assert(n * batch >= total && (n > 0 ==> (n - 1) * batch < total)) by (nonlinear_arith)
        requires
            n == ((total + batch - 1) as int / batch as int) as nat,
            batch > 0,
    ;
}

/// The import batches cut `0..total` into consecutive pieces: the first
/// starts at 0, each starts where the one before ended, none is empty or
/// longer than `batch`, and the last ends at `total`; so together they
/// hold every song exactly once.
pub proof fn lemma_batches_partition(total: nat, batch: nat)
    requires
        batch > 0,
    ensures
        ({
            let b = batch_bounds(total, batch);
            &&& (b.len() == 0 <==> total == 0)
            &&& b.len() > 0 ==> b[0].0 == 0 && b.last().1 == total
            &&& forall|k: int| 0 <= k < b.len() ==> b[k].0 < #[trigger] b[k].1 <= b[k].0 + batch
            &&& forall|k: int| 0 <= k < b.len() - 1 ==> #[trigger] b[k].1 == b[k + 1].0
            &&& batch_total(b) == total
        }),
{
    let b = batch_bounds(total, batch);
    let n = b.len();
    lemma_batch_count(total, batch);
    assert forall|k: int| 0 <= k < n implies (#[trigger] b[k]).0 < total by {
        assert(k * batch <= (n - 1) * batch) by (nonlinear_arith)
            requires
                0 <= k <= n - 1,
                batch > 0,
        ;
    }
    assert forall|k: int| 0 <= k < n implies b[k].0 < #[trigger] b[k].1 <= b[k].0 + batch by {
        assert(b[k].0 < total);
        assert((k + 1) * batch == k * batch + batch) by (nonlinear_arith);
    }
    assert forall|k: int| 0 <= k < n - 1 implies #[trigger] b[k].1 == b[k + 1].0 by {
        assert(b[k + 1].0 < total);
    }
    if n > 0 {
        assert(b[0].0 == 0 * batch);
        assert(0 * batch == 0) by (nonlinear_arith);
        assert((n - 1 + 1) * batch >= total);
    }
    if total > 0 {
        assert(n > 0) by (nonlinear_arith)
            requires
                n * batch >= total,
                total > 0,
        ;
    }
    lemma_batch_total_prefix(total, batch, n as int);
    assert(b.subrange(0, n as int) =~= b);
}

proof fn lemma_batch_total_prefix(total: nat, batch: nat, k: int)
    requires
        batch > 0,
        0 <= k <= batch_bounds(total, batch).len(),
        forall|j: int|
            0 <= j < batch_bounds(total, batch).len() - 1 ==> #[trigger] batch_bounds(
                total,
                batch,
            )[j].1 == batch_bounds(total, batch)[j + 1].0,
        batch_bounds(total, batch).len() > 0 ==> batch_bounds(total, batch)[0].0 == 0,
        batch_bounds(total, batch).len() > 0 ==> batch_bounds(total, batch).last().1 == total,
    ensures
        batch_total(batch_bounds(total, batch).subrange(0, k)) == if k == 0 {
            0
        } else {
            batch_bounds(total, batch)[k - 1].1
        },
    decreases k,
{
    let b = batch_bounds(total, batch);
    if k > 0 {
        lemma_batch_total_prefix(total, batch, k - 1);
        assert(b.subrange(0, k).drop_last() =~= b.subrange(0, k - 1));
        if k > 1 {
            assert(b[k - 2].1 == b[k - 1].0);
        }
    }
}

/// Progress of a background import of a legacy song list: whether one is
/// running, how many songs it holds and how many are imported so far.
pub struct MigrationProgress {
    migrating: bool,
    total: usize,
    done: usize,
}

impl View for MigrationProgress {
    type V = (bool, nat, nat);

    closed spec fn view(&self) -> (bool, nat, nat) {
        (self.migrating, self.total as nat, self.done as nat)
    }
}

impl MigrationProgress {
    /// No import running.
    pub fn new() -> (r: MigrationProgress)
        ensures
            r@ == (false, 0nat, 0nat),
    {
        MigrationProgress { migrating: false, total: 0, done: 0 }
    }

    /// An import of `total` songs begins; none is imported yet.
    pub fn start(&mut self, total: usize)
        ensures
            final(self)@ == (true, total as nat, 0nat),
    {
        self.migrating = true;
        self.total = total;
        self.done = 0;
    }

    /// A batch of `count` songs was imported.
    pub fn record_batch(&mut self, count: usize)
        requires
            old(self)@.2 + count <= old(self)@.1,
        ensures
            final(self)@ == (old(self)@.0, old(self)@.1, (old(self)@.2 + count) as nat),
    {
        self.done = self.done + count;
    }

    /// The import ended, whether or not every batch went in.
    pub fn finish(&mut self)
        ensures
            final(self)@ == (false, old(self)@.1, old(self)@.2),
    {
        self.migrating = false;
    }

    /// Whether an import is running.
    pub fn is_song_migration_in_progress(&self) -> (r: bool)
        ensures
            r == self@.0,
    {
        self.migrating
    }

    /// How many songs the current or last import holds.
    pub fn song_migration_total(&self) -> (r: usize)
        ensures
            r == self@.1,
    {
        self.total
    }

    /// How many songs of it are imported so far.
    pub fn song_migration_done(&self) -> (r: usize)
        ensures
            r == self@.2,
    {
        self.done
    }
}

/// Importing every batch counts every song: the first `k` import batches
/// hold as many songs as the `k`-th batch's end, never more than `total`,
/// and exactly `total` when they are all the batches.
pub proof fn lemma_progress_reaches_total(total: nat, batch: nat, k: int)
    requires
        batch > 0,
        0 <= k <= batch_bounds(total, batch).len(),
    ensures
        k > 0 ==> batch_total(batch_bounds(total, batch).subrange(0, k)) == batch_bounds(
            total,
            batch,
        )[k - 1].1,
        batch_total(batch_bounds(total, batch).subrange(0, k)) <= total,
        k == batch_bounds(total, batch).len() ==> batch_total(batch_bounds(total, batch).subrange(0, k))
            == total,
{
    lemma_batches_partition(total, batch);
    let b = batch_bounds(total, batch);
    lemma_batch_total_prefix(total, batch, k);
    if k > 0 {
        assert(b[k - 1].1 <= total) by {
            lemma_prefix_ends_below(total, batch, k - 1);
        }
    }
    if k == b.len() {
        assert(b.subrange(0, k) =~= b);
    }
}

proof fn lemma_prefix_ends_below(total: nat, batch: nat, j: int)
    requires
        batch > 0,
        0 <= j < batch_bounds(total, batch).len(),
    ensures
        batch_bounds(total, batch)[j].1 <= total,
{
}

/// What becomes of a legacy flat song list found at startup.
#[derive(Debug, Clone, Copy, PartialEq, Eq, Structural)]
pub enum SongListImport {
    /// Nothing to do: no list, the store already holds songs, or the list
    /// cannot be read.
    Skip,
    /// The list holds no song: record its library settings and set it aside.
    ArchiveEmpty,
    /// Import its songs in the background.
    Import,
}

/// The decision on a legacy song list: `list_present` whether the file
/// exists, `stored_songs` the store's song count (`None` when it cannot be
/// read), `listed_songs` the number of songs the list holds (`None` when it
/// cannot be read or parsed).
pub fn plan_song_list_import(
    list_present: bool,
    stored_songs: Option<i64>,
    listed_songs: Option<usize>,
) -> (r: SongListImport)
    ensures
        r == (if !list_present {
            SongListImport::Skip
        } else {
            match stored_songs {
                None => SongListImport::Skip,
                Some(n) => if n > 0 {
                    SongListImport::Skip
                } else {
                    match listed_songs {
                        None => SongListImport::Skip,
                        Some(t) => if t == 0 {
                            SongListImport::ArchiveEmpty
                        } else {
                            SongListImport::Import
                        },
                    }
                },
            }
        }),
{
    if !list_present {
        return SongListImport::Skip;
    }
    match stored_songs {
        None => SongListImport::Skip,
        Some(n) => {
            if n > 0 {
                return SongListImport::Skip;
            }
            match listed_songs {
                None => SongListImport::Skip,
                Some(t) => {
                    if t == 0 {
                        SongListImport::ArchiveEmpty
                    } else {
                        SongListImport::Import
                    }
                },
            }
        },
    }
}

/// Where a legacy remote song's source file is cached:
/// `{file_hash}.{container}`, `bin` when the container is unknown.
pub fn legacy_source_file_name(file_hash: &str, container: Option<&str>) -> (r: String)
    ensures
        r@ == file_hash@ + "."@ + match container {
            Some(c) => c@,
            None => "bin"@,
        },
{
    let ext = match container {
        Some(c) => c,
        None => "bin",
    };
    file_hash.to_owned().concat(".").concat(ext)
}

} // verus!
