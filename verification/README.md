# app_core

The core of a karaoke app, verified with Verus: the analysis queue and its
worker, the decisions of one analysis run, the karaoke-video pipelines,
offloading analyses to a peer instance, casting, lyrics handling, song
search, store migrations, and the encodings these produce.

## Layout

- `src/` — the verified library. Each operation states its result in
  `requires`/`ensures` over mathematical models (`Seq`, `Map`, views), and
  the properties that span several operations are proof functions
  (`lemma_*`).
  - `analysis_queue.rs` — stored queue rows, failure kinds, decoding and
    encoding statuses; the stored table and its updates.
  - `analyzer.rs` — the in-memory queue, the active hash and the worker's
    one-shot marks; enqueueing, removing and reanalysis plans.
  - `pipeline.rs` — one analysis run: server events, retries, failures.
  - `video_queue.rs` — in-flight karaoke/YouTube video work and its
    race-guard token.
  - `karaoke.rs` — freshness of cached renders, the status table, the
    YouTube lookup → download → render steps, sweeps and backfill.
  - `peer.rs` — peer URLs, liveness flags and the steps of one dispatch.
  - `casting.rs` — server address, cast media, status page, cast steps.
  - `lyrics.rs` — lyrics lines, LRCLIB lookups and answer order, timing
    anchors matched to synced lyrics.
  - `search.rs` — picking and ranking songs by order keys.
  - `migrations.rs` — schema steps, missing columns, import batches and
    their progress.
  - `commands.rs` — which command a name calls, settings transitions.
  - `audiodb.rs`, `youtube.rs`, `library.rs` — TheAudioDB lookups,
    download throttling, scan generations and startup.
  - `encoding.rs`, `text.rs`, `keyed.rs` — percent-encoding, HTML escaping,
    number formatting and parsing, string helpers, keyed-row maps.
- `tests/` — tests on concrete values.
- `app/` — the I/O around the library (SQLite, HTTP, the Chromecast,
  yt-dlp, ffmpeg, file reads) and the floating-point parts (similarity
  scores, frame rendering, audio sync).
