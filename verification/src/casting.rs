//! Casting a song: the server address the Chromecast is pointed at, the
//! media it is handed, the status page a browser is shown while a cast
//! runs, and the steps of one cast request with the progress each step
//! reports.

use vstd::prelude::*;
use vstd::utf8::encode_utf8;

use crate::encoding::{
    debug_quoted, decimal, html_escape, html_escaped, lower_hex, parse_u16, parsed_u16,
    percent_encode, quoted, to_decimal, to_lower_hex, url_encode,
};
use crate::text::{chars_of, contains_str, has_substring};

verus! {

/// The port the server listens on when none is configured.
pub const DEFAULT_SERVER_PORT: u16 = 8080;

/// What follows the last `:` of `s` (all of `s` when it has none).
pub open spec fn after_last_colon(s: Seq<char>) -> Seq<char>
    decreases s.len(),
{
    if s.len() == 0 {
        s
    } else if s.last() == ':' {
        Seq::empty()
    } else {
        after_last_colon(s.drop_last()).push(s.last())
    }
}

/// The port of a bind address `host:port`, as configured; the default when
/// it is unset or its last `:`-part is no port number.
pub open spec fn bound_port(bind: Option<Seq<char>>) -> u16 {
    match bind {
        None => DEFAULT_SERVER_PORT,
        Some(b) => match parsed_u16(after_last_colon(b)) {
            Some(p) => p,
            None => DEFAULT_SERVER_PORT,
        },
    }
}

fn after_last_colon_exec(s: &str) -> (r: String)
    ensures
        r@ == after_last_colon(s@),
{
    let cs = chars_of(s);
    let mut start: usize = cs.len();
    assert(s@.subrange(0, start as int) =~= s@);
    assert(s@.subrange(start as int, s@.len() as int) =~= Seq::<char>::empty());
    assert(after_last_colon(s@) + Seq::<char>::empty() =~= after_last_colon(s@));
    while start > 0 && cs[start - 1] != ':'
        invariant
            cs@ == s@,
            start <= cs@.len(),
            after_last_colon(s@) == after_last_colon(s@.subrange(0, start as int)) + s@.subrange(
                start as int,
                s@.len() as int,
            ),
        decreases start,
    {
        let ghost pre = s@.subrange(0, start as int);
        assert(pre.drop_last() =~= s@.subrange(0, start - 1));
        assert(after_last_colon(pre) == after_last_colon(pre.drop_last()).push(pre.last()));
        assert(s@.subrange(start - 1, s@.len() as int) =~= seq![pre.last()] + s@.subrange(
            start as int,
            s@.len() as int,
        ));
        start = start - 1;
    }
    proof {
        if start > 0 {
            let pre = s@.subrange(0, start as int);
            assert(pre.last() == ':');
        } else {
            assert(s@.subrange(0, 0) =~= Seq::<char>::empty());
        }
        assert(Seq::<char>::empty() + s@.subrange(start as int, s@.len() as int) =~= s@.subrange(
            start as int,
            s@.len() as int,
        ));
    }
    crate::text::string_of(&cs.as_slice()[start..cs.len()])
}

/// The port the server listens on, from its bind address.
pub fn server_port(bind: Option<&str>) -> (r: u16)
    ensures
        r == bound_port(
            match bind {
                Some(b) => Some(b@),
                None => None,
            },
        ),
{
    match bind {
        None => DEFAULT_SERVER_PORT,
        Some(b) => {
            let part = after_last_colon_exec(b);
            match parse_u16(part.as_str()) {
                Some(p) => p,
                None => DEFAULT_SERVER_PORT,
            }
        },
    }
}

/// `s` without its trailing `/` characters.
pub open spec fn without_trailing_slashes(s: Seq<char>) -> Seq<char>
    decreases s.len(),
{
    if s.len() > 0 && s.last() == '/' {
        without_trailing_slashes(s.drop_last())
    } else {
        s
    }
}

fn without_trailing_slashes_exec(s: &str) -> (r: String)
    ensures
        r@ == without_trailing_slashes(s@),
{
    let cs = chars_of(s);
    let mut n: usize = cs.len();
    assert(s@.subrange(0, n as int) =~= s@);
    while n > 0 && cs[n - 1] == '/'
        invariant
            cs@ == s@,
            n <= cs@.len(),
            without_trailing_slashes(s@) == without_trailing_slashes(s@.subrange(0, n as int)),
        decreases n,
    {
        assert(s@.subrange(0, n as int).drop_last() =~= s@.subrange(0, n - 1));
        n = n - 1;
    }
    crate::text::string_of(&cs.as_slice()[0..n])
}

/// The base URL the Chromecast fetches media from: the configured one
/// without trailing slashes, else `http://{lan_ip}:{port}`; an error when
/// neither is known.
pub fn server_base_url(configured: Option<&str>, lan_ip: Option<&str>, port: u16) -> (r: Result<
    String,
    String,
>)
    ensures
        configured matches Some(c) ==> (r matches Ok(u) && u@ == without_trailing_slashes(c@)),
        configured is None ==> match lan_ip {
            Some(ip) => r matches Ok(u) && u@ == "http://"@ + ip@ + ":"@ + decimal(port as nat),
            None => r matches Err(m) && m@
                == "could not auto-detect this server's LAN IP; set chromecast.server_base_url in config.json"@,
        },
{
    match configured {
        Some(c) => Ok(without_trailing_slashes_exec(c)),
        None => match lan_ip {
            Some(ip) => Ok(
                "http://".to_owned().concat(ip).concat(":").concat(
                    to_decimal(port as u64).as_str(),
                ),
            ),
            None => Err(
                "could not auto-detect this server's LAN IP; set chromecast.server_base_url in config.json".to_owned(),
            ),
        },
    }
}

/// The MIME type `mime_guess` reports for a path (its first guess, or
/// `application/octet-stream`).
pub uninterp spec fn guessed_mime_type(path: Seq<char>) -> Seq<char>;

/// `mime_guess::from_path(path).first_or_octet_stream()`, as text. Its
/// contract claims only that the result is `guessed_mime_type` of the path:
/// the guess depends on the path alone (its extension, through the crate's
/// built-in table). Which type each extension maps to is left unsaid.
#[verifier::external_body]
pub(crate) fn guess_mime_type(path: &str) -> (r: String)
    ensures
        r@ == guessed_mime_type(path@),
{
    mime_guess::from_path(path).first_or_octet_stream().to_string()
}

/// What the default media receiver is handed: the rendered karaoke video
/// as `video/mp4` when karaoke video is on, else the song file with the
/// MIME type its name suggests.
pub fn cast_media(karaoke_video: bool, song_path: &str, video_path: &str) -> (r: (String, String))
    ensures
        karaoke_video ==> r.0@ == video_path@ && r.1@ == "video/mp4"@,
        !karaoke_video ==> r.0@ == song_path@ && r.1@ == guessed_mime_type(song_path@),
{
    if karaoke_video {
        (video_path.to_owned(), "video/mp4".to_owned())
    } else {
        (song_path.to_owned(), guess_mime_type(song_path))
    }
}

/// The URL the Chromecast loads: the server's asset endpoint with the
/// media path percent-encoded.
pub fn content_id(base_url: &str, media_path: &str) -> (r: String)
    ensures
        r@ == base_url@ + "/api/asset?path="@ + percent_encode(encode_utf8(media_path@)),
{
    base_url.to_owned().concat("/api/asset?path=").concat(url_encode(media_path).as_str())
}

/// A forced custom receiver needs a configured receiver app id.
pub fn custom_receiver_check(force_custom_receiver: bool, has_receiver_app_id: bool) -> (r: Result<
    (),
    String,
>)
    ensures
        (force_custom_receiver && !has_receiver_app_id) ==> (r matches Err(m) && m@
            == "force_custom_receiver requested but chromecast.receiver_app_id is not set in config.json"@),
        !(force_custom_receiver && !has_receiver_app_id) ==> r is Ok,
{
    if force_custom_receiver && !has_receiver_app_id {
        Err(
            "force_custom_receiver requested but chromecast.receiver_app_id is not set in config.json".to_owned(),
        )
    } else {
        Ok(())
    }
}

/// How a media load went, from the first status entry the device sent
/// back (`(player idle, idle because of an error)`): failed only when it is
/// idle because of an error; no entry can't be confirmed either way.
pub fn media_load_result(first_entry: Option<(bool, bool)>) -> (r: Result<(), String>)
    ensures
        (first_entry matches Some((idle, err)) && idle && err) ==> (r matches Err(m) && m@
            == "chromecast reported the load failed (player_state=IDLE, idle_reason=ERROR) -- check the device can actually reach content_id over the network"@),
        !(first_entry matches Some((idle, err)) && idle && err) ==> r is Ok,
{
    match first_entry {
        Some((idle, err)) => if idle && err {
            Err(
                "chromecast reported the load failed (player_state=IDLE, idle_reason=ERROR) -- check the device can actually reach content_id over the network".to_owned(),
            )
        } else {
            Ok(())
        },
        None => Ok(()),
    }
}

/// The status page's text before the escaped query.
pub const STATUS_PAGE_HEAD: &'static str = r##"<!doctype html>
<html>
<head>
<meta charset="utf-8">
<title>Casting…</title>
<style>
  body {
    background: #0c0e18;
    color: #f2f2f5;
    font-family: -apple-system, BlinkMacSystemFont, "Segoe UI", sans-serif;
    display: flex;
    align-items: center;
    justify-content: center;
    height: 100vh;
    margin: 0;
  }
  .card {
    text-align: center;
    max-width: 32rem;
    padding: 2rem;
  }
  .query {
    color: #9a9aa8;
    margin-bottom: 1.5rem;
  }
  .spinner {
    width: 2.5rem;
    height: 2.5rem;
    margin: 0 auto 1.5rem;
    border-radius: 50%;
    border: 3px solid #2a2d3d;
    border-top-color: #ffcd50;
    animation: spin 0.8s linear infinite;
  }
  .icon {
    font-size: 2.5rem;
    margin-bottom: 1.5rem;
  }
  @keyframes spin { to { transform: rotate(360deg); } }
  #status { font-size: 1.15rem; }
  .error #status { color: #ff7878; }
  .done #status { color: #8cffa0; }
  #alternatives { margin-top: 1.25rem; text-align: left; }
  #alternatives:empty { display: none; }
  #alternatives p { margin: 0 0 0.5rem; font-size: 0.85rem; color: #9a9aa8; }
  #alternatives a {
    display: block;
    padding: 0.5rem 0.75rem;
    margin-bottom: 0.4rem;
    border-radius: 0.5rem;
    background: #161925;
    color: #ffcd50;
    text-decoration: none;
  }
  #alternatives a:hover { background: #1e2233; }
</style>
</head>
<body>
  <div class="card" id="card">
    <div class="spinner" id="spinner"></div>
    <div class="icon" id="icon" style="display:none"></div>
    <div class="query">Searching for &ldquo;"##;

/// The status page's text between the escaped query and the escaped
/// request id.
pub const STATUS_PAGE_MIDDLE: &'static str = r##"&rdquo;</div>
    <div id="status">Starting…</div>
    <div id="alternatives"></div>
  </div>
  <script>
    const requestId = ""##;

/// The status page's text after the escaped request id.
pub const STATUS_PAGE_TAIL: &'static str = r##"";
    const statusEl = document.getElementById("status");
    const cardEl = document.getElementById("card");
    const spinnerEl = document.getElementById("spinner");
    const iconEl = document.getElementById("icon");
    const alternativesEl = document.getElementById("alternatives");

    function setTerminal(cls, icon) {
      cardEl.className = cls;
      spinnerEl.style.display = "none";
      iconEl.style.display = "block";
      iconEl.textContent = icon;
    }

    // Built with DOM APIs (not innerHTML) so title/artist text -- which
    // arrives as plain JSON over the WS, not server-rendered -- can never
    // be interpreted as markup regardless of content.
    function showAlternatives(alternatives) {
      alternativesEl.textContent = "";
      if (!alternatives || alternatives.length === 0) return;

      const heading = document.createElement("p");
      heading.textContent = "Cast one of these instead:";
      alternativesEl.appendChild(heading);

      for (const alt of alternatives) {
        const link = document.createElement("a");
        link.href = `/api/cast?file_hash=${encodeURIComponent(alt.file_hash)}`;
        link.textContent = `${alt.title} — ${alt.artist}`;
        alternativesEl.appendChild(link);
      }
    }

    const ws = new WebSocket(`ws://${location.host}/ws`);
    ws.onmessage = (evt) => {
      let msg;
      try { msg = JSON.parse(evt.data); } catch { return; }
      if (msg.type !== "cast-progress") return;
      const p = msg.payload || {};
      if (p.request_id !== requestId) return;

      statusEl.textContent = p.message || "";
      if (p.stage === "not_analyzed") {
        setTerminal("error", "✕");
        showAlternatives(p.alternatives);
      } else if (p.stage === "error" || p.stage === "no_match") {
        setTerminal("error", "✕");
      } else if (p.stage === "done") {
        setTerminal("done", "✓");
      }
    };
    ws.onerror = () => {
      statusEl.textContent = "Lost connection to the server.";
      setTerminal("error", "✕");
    };
  </script>
</body>
</html>
"##;

/// The page a browser is shown while its cast runs: the query and the
/// request id it follows, both HTML-escaped.
pub fn render_status_page(request_id: &str, query: &str) -> (r: String)
    ensures
        r@ == STATUS_PAGE_HEAD@ + html_escaped(query@) + STATUS_PAGE_MIDDLE@ + html_escaped(
            request_id@,
        ) + STATUS_PAGE_TAIL@,
{
    let query_html = html_escape(query);
    let request_id_html = html_escape(request_id);
    STATUS_PAGE_HEAD.to_owned().concat(query_html.as_str()).concat(STATUS_PAGE_MIDDLE).concat(
        request_id_html.as_str(),
    ).concat(STATUS_PAGE_TAIL)
}

/// Whether a request's `Accept` header asks for the JSON answer (else a
/// browser is shown the status page).
pub fn wants_json(accept: Option<&str>) -> (r: bool)
    ensures
        r == (accept matches Some(a) && has_substring(a@, "application/json"@)),
{
    match accept {
        Some(a) => contains_str(a, "application/json"),
        None => false,
    }
}

/// A cast request names a query or a song hash.
pub fn cast_request_check(q: &Option<String>, file_hash: &Option<String>) -> (r: Result<(), String>)
    ensures
        (q is None && file_hash is None) ==> (r matches Err(m) && m@
            == "must provide either q or file_hash"@),
        !(q is None && file_hash is None) ==> r is Ok,
{
    if q.is_none() && file_hash.is_none() {
        Err("must provide either q or file_hash".to_owned())
    } else {
        Ok(())
    }
}

/// What the status page says it searches for.
pub fn display_query(q: &Option<String>, file_hash: &Option<String>) -> (r: String)
    ensures
        q matches Some(x) ==> r@ == x@,
        q is None ==> (file_hash matches Some(h) ==> r@ == "song "@ + h@),
        (q is None && file_hash is None) ==> r@.len() == 0,
{
    match (q, file_hash) {
        (Some(x), _) => x.clone(),
        (None, Some(h)) => "song ".to_owned().concat(h.as_str()),
        (None, None) => String::new(),
    }
}

/// Source of cast request ids.
pub struct RequestIds {
    pub counter: u64,
}

/// The next request id, `{nanos:x}-{n:x}`: the time in nanoseconds and a
/// counter that wraps around.
pub fn next_request_id(ids: &mut RequestIds, nanos: u128) -> (r: String)
    ensures
        r@ == lower_hex(nanos as nat) + "-"@ + lower_hex(old(ids).counter as nat),
        final(ids).counter == (if old(ids).counter == u64::MAX {
            0
        } else {
            old(ids).counter + 1
        }),
{
    let n = ids.counter;
    ids.counter = if n == u64::MAX {
        0
    } else {
        n + 1
    };
    to_lower_hex(nanos).concat("-").concat(to_lower_hex(n as u128).as_str())
}

/// One progress report of a cast, shown on the status page.
pub struct CastProgress {
    pub stage: String,
    pub message: String,
}

/// A song offered instead of one that isn't analyzed yet.
pub struct AlternativeSong {
    pub file_hash: String,
    pub title: String,
    pub artist: String,
}

/// The song a cast matched.
pub struct CastSong {
    pub file_hash: String,
    pub title: String,
    pub artist: String,
    pub is_analyzed: bool,
}

/// How a cast failed.
pub enum CastFailure {
    /// Answered 400.
    BadRequest(String),
    /// Answered 404.
    NotFound(String),
    /// Answered 409, with songs to cast instead.
    NotAnalyzed { message: String, alternatives: Vec<AlternativeSong> },
    /// Answered 500.
    Internal(String),
}

/// What a cast reported.
pub enum CastEvent {
    ConfigLoaded { has_chromecast: bool, karaoke_video: bool },
    SongFound(Option<CastSong>),
    AlternativesFound(Vec<AlternativeSong>),
    Cast(Result<(), String>),
    CastPanicked(String),
}

/// The outside work to do next.
pub enum CastNext {
    LoadConfig,
    FindSongByHash(String),
    FindBestMatch(String),
    /// Up to five analyzed songs close to this query.
    FindAlternatives(String),
    Cast,
    Finish(Result<(String, String, String), CastFailure>),
}

/// Progress to report (in order), then the next work.
pub struct CastStep {
    pub progress: Vec<CastProgress>,
    pub next: CastNext,
}

/// Where a cast request stands.
#[derive(Debug, Clone, Copy, PartialEq, Eq, Structural)]
pub enum CastStage {
    Config,
    Lookup,
    Alternatives,
    Casting,
    Done,
}

/// One cast request.
pub struct CastRun {
    pub query: String,
    pub file_hash: Option<String>,
    pub stage: CastStage,
    pub karaoke_video: bool,
    pub song: Option<CastSong>,
    pub not_analyzed_message: String,
}

/// A progress report with this stage and message.
pub open spec fn progress_is(p: CastProgress, stage: Seq<char>, message: Seq<char>) -> bool {
    p.stage@ == stage && p.message@ == message
}

/// `{title:?} by {artist:?}`.
pub open spec fn title_by(title: Seq<char>, artist: Seq<char>) -> Seq<char> {
    debug_quoted(title) + " by "@ + debug_quoted(artist)
}

fn progress(stage: &str, message: String) -> (r: CastProgress)
    ensures
        progress_is(r, stage@, message@),
{
    CastProgress { stage: stage.to_owned(), message }
}

fn title_by_exec(title: &str, artist: &str) -> (r: String)
    ensures
        r@ == title_by(title@, artist@),
{
    quoted(title).concat(" by ").concat(quoted(artist).as_str())
}

impl CastRun {
    /// A run waiting on its cast has the matched song recorded.
    pub open spec fn wf(&self) -> bool {
        self.stage == CastStage::Casting ==> self.song is Some
    }

    /// Whether `event` is what the current stage waits for.
    pub open spec fn expects(&self, event: CastEvent) -> bool {
        match self.stage {
            CastStage::Config => event is ConfigLoaded,
            CastStage::Lookup => event is SongFound,
            CastStage::Alternatives => event is AlternativesFound,
            CastStage::Casting => event is Cast || event is CastPanicked,
            CastStage::Done => false,
        }
    }

    /// Starts a cast of the song `file_hash` names, else of the best match
    /// for `query`; reports that matching began, then loads the config.
    pub fn new(query: Option<String>, file_hash: Option<String>) -> (r: (CastRun, CastStep))
        ensures
            r.0.wf(),
            r.0.stage == CastStage::Config,
            r.0.query@ == (match query {
                Some(q) => q@,
                None => Seq::<char>::empty(),
            }),
            r.0.file_hash == file_hash,
            r.1.next is LoadConfig,
            r.1.progress@.len() == 1,
            progress_is(
                r.1.progress@[0],
                "matching"@,
                match file_hash {
                    Some(h) => "Looking up song "@ + h@ + "..."@,
                    None => "Looking for a song matching "@ + debug_quoted(r.0.query@) + "..."@,
                },
            ),
    {
        let query = match query {
            Some(q) => q,
            None => String::new(),
        };
        let message = match &file_hash {
            Some(h) => "Looking up song ".to_owned().concat(h.as_str()).concat("..."),
            None => "Looking for a song matching ".to_owned().concat(
                quoted(query.as_str()).as_str(),
            ).concat("..."),
        };
        let mut progress_list: Vec<CastProgress> = Vec::new();
        progress_list.push(progress("matching", message));
        let run = CastRun {
            query,
            file_hash,
            stage: CastStage::Config,
            karaoke_video: false,
            song: None,
            not_analyzed_message: String::new(),
        };
        (run, CastStep { progress: progress_list, next: CastNext::LoadConfig })
    }
}

/// Advances a cast by one step: no configured Chromecast is a bad
/// request, no matching song is not-found, a song that isn't analyzed yet
/// is refused with analyzed alternatives, and a failed cast is an internal
/// error; each outcome is reported on the status page.
pub fn run_cast(run: &mut CastRun, event: CastEvent) -> (r: CastStep)
    requires
        old(run).wf(),
        old(run).expects(event),
    ensures
        final(run).wf(),
        final(run).query == old(run).query,
        final(run).file_hash == old(run).file_hash,
        match event {
            CastEvent::ConfigLoaded { has_chromecast, karaoke_video } => if !has_chromecast {
                let m = "no chromecast configured in config.json"@;
                &&& final(run).stage == CastStage::Done
                &&& r.progress@.len() == 1
                &&& progress_is(r.progress@[0], "error"@, m)
                &&& r.next matches CastNext::Finish(Err(CastFailure::BadRequest(e)))
                &&& e@ == m
            } else {
                &&& final(run).stage == CastStage::Lookup
                &&& final(run).karaoke_video == karaoke_video
                &&& r.progress@.len() == 0
                &&& match old(run).file_hash {
                    Some(h) => r.next matches CastNext::FindSongByHash(x) && x@ == h@,
                    None => r.next matches CastNext::FindBestMatch(x) && x@ == old(run).query@,
                }
            },
            CastEvent::SongFound(found) => match found {
                None => {
                    let m = match old(run).file_hash {
                        Some(h) => "no song found for file_hash "@ + debug_quoted(h@),
                        None => "no confident song match for "@ + debug_quoted(old(run).query@),
                    };
                    &&& final(run).stage == CastStage::Done
                    &&& r.progress@.len() == 1
                    &&& progress_is(r.progress@[0], "no_match"@, m)
                    &&& r.next matches CastNext::Finish(Err(CastFailure::NotFound(e)))
                    &&& e@ == m
                },
                Some(song) => if !song.is_analyzed {
                    &&& final(run).stage == CastStage::Alternatives
                    &&& final(run).not_analyzed_message@ == title_by(song.title@, song.artist@)
                        + " hasn't been analyzed yet -- analyze it from the library before casting"@
                    &&& r.progress@.len() == 0
                    &&& r.next matches CastNext::FindAlternatives(x)
                    &&& x@ == old(run).query@
                } else {
                    let t = title_by(song.title@, song.artist@);
                    &&& final(run).stage == CastStage::Casting
                    &&& final(run).song == Some(song)
                    &&& r.next is Cast
                    &&& progress_is(r.progress@[0], "matched"@, "Found "@ + t)
                    &&& if old(run).karaoke_video {
                        &&& r.progress@.len() == 3
                        &&& progress_is(
                            r.progress@[1],
                            "rendering"@,
                            "Preparing video (rendering now if not already cached)..."@,
                        )
                        &&& progress_is(
                            r.progress@[2],
                            "casting"@,
                            "Casting to your Chromecast..."@,
                        )
                    } else {
                        &&& r.progress@.len() == 2
                        &&& progress_is(
                            r.progress@[1],
                            "casting"@,
                            "Casting to your Chromecast..."@,
                        )
                    }
                },
            },
            CastEvent::AlternativesFound(alternatives) => {
                &&& final(run).stage == CastStage::Done
                &&& r.progress@.len() == 1
                &&& progress_is(r.progress@[0], "not_analyzed"@, old(run).not_analyzed_message@)
                &&& r.next matches CastNext::Finish(
                    Err(CastFailure::NotAnalyzed { message, alternatives: alts }),
                )
                &&& message@ == old(run).not_analyzed_message@
                &&& alts == alternatives
            },
            CastEvent::Cast(res) => {
                &&& final(run).stage == CastStage::Done
                &&& r.progress@.len() == 1
                &&& old(run).song is Some
                &&& old(run).song matches Some(song) ==> match res {
                    Ok(()) => {
                        &&& progress_is(
                            r.progress@[0],
                            "done"@,
                            "Now playing "@ + title_by(song.title@, song.artist@),
                        )
                        &&& r.next matches CastNext::Finish(Ok((h, t, a)))
                        &&& h@ == song.file_hash@
                        &&& t@ == song.title@
                        &&& a@ == song.artist@
                    },
                    Err(e) => {
                        &&& progress_is(r.progress@[0], "error"@, e@)
                        &&& r.next matches CastNext::Finish(Err(CastFailure::Internal(m)))
                        &&& m@ == e@
                    },
                }
            },
            CastEvent::CastPanicked(e) => {
                let m = "cast task panicked: "@ + e@;
                &&& final(run).stage == CastStage::Done
                &&& r.progress@.len() == 1
                &&& progress_is(r.progress@[0], "error"@, m)
                &&& r.next matches CastNext::Finish(Err(CastFailure::Internal(x)))
                &&& x@ == m
            },
        },
{
    match event {
        CastEvent::ConfigLoaded { has_chromecast, karaoke_video } => {
            let mut progress_list: Vec<CastProgress> = Vec::new();
            if !has_chromecast {
                run.stage = CastStage::Done;
                let m = "no chromecast configured in config.json";
                progress_list.push(progress("error", m.to_owned()));
                return CastStep {
                    progress: progress_list,
                    next: CastNext::Finish(Err(CastFailure::BadRequest(m.to_owned()))),
                };
            }
            run.stage = CastStage::Lookup;
            run.karaoke_video = karaoke_video;
            let next = match &run.file_hash {
                Some(h) => CastNext::FindSongByHash(h.clone()),
                None => CastNext::FindBestMatch(run.query.clone()),
            };
            CastStep { progress: progress_list, next }
        },
        CastEvent::SongFound(found) => {
            let mut progress_list: Vec<CastProgress> = Vec::new();
            match found {
                None => {
                    run.stage = CastStage::Done;
                    let m = match &run.file_hash {
                        Some(h) => "no song found for file_hash ".to_owned().concat(
                            quoted(h.as_str()).as_str(),
                        ),
                        None => "no confident song match for ".to_owned().concat(
                            quoted(run.query.as_str()).as_str(),
                        ),
                    };
                    progress_list.push(progress("no_match", m.clone()));
                    CastStep {
                        progress: progress_list,
                        next: CastNext::Finish(Err(CastFailure::NotFound(m))),
                    }
                },
                Some(song) => {
                    let t = title_by_exec(song.title.as_str(), song.artist.as_str());
                    if !song.is_analyzed {
                        run.stage = CastStage::Alternatives;
                        run.not_analyzed_message = t.concat(
                            " hasn't been analyzed yet -- analyze it from the library before casting",
                        );
                        CastStep {
                            progress: progress_list,
                            next: CastNext::FindAlternatives(run.query.clone()),
                        }
                    } else {
                        run.stage = CastStage::Casting;
                        progress_list.push(progress("matched", "Found ".to_owned().concat(t.as_str())));
                        if run.karaoke_video {
                            progress_list.push(
                                progress(
                                    "rendering",
                                    "Preparing video (rendering now if not already cached)...".to_owned(),
                                ),
                            );
                        }
                        progress_list.push(
                            progress("casting", "Casting to your Chromecast...".to_owned()),
                        );
                        run.song = Some(song);
                        CastStep { progress: progress_list, next: CastNext::Cast }
                    }
                },
            }
        },
        CastEvent::AlternativesFound(alternatives) => {
            run.stage = CastStage::Done;
            let mut progress_list: Vec<CastProgress> = Vec::new();
            progress_list.push(progress("not_analyzed", run.not_analyzed_message.clone()));
            CastStep {
                progress: progress_list,
                next: CastNext::Finish(
                    Err(
                        CastFailure::NotAnalyzed {
                            message: run.not_analyzed_message.clone(),
                            alternatives,
                        },
                    ),
                ),
            }
        },
        CastEvent::Cast(res) => {
            run.stage = CastStage::Done;
            let mut progress_list: Vec<CastProgress> = Vec::new();
            match res {
                Ok(()) => {
                    let (h, t, a) = match &run.song {
                        Some(song) => (song.file_hash.clone(), song.title.clone(), song.artist.clone()),
                        None => (String::new(), String::new(), String::new()),
                    };
                    let m = "Now playing ".to_owned().concat(
                        title_by_exec(t.as_str(), a.as_str()).as_str(),
                    );
                    progress_list.push(progress("done", m));
                    CastStep { progress: progress_list, next: CastNext::Finish(Ok((h, t, a))) }
                },
                Err(e) => {
                    progress_list.push(progress("error", e.clone()));
                    CastStep {
                        progress: progress_list,
                        next: CastNext::Finish(Err(CastFailure::Internal(e))),
                    }
                },
            }
        },
        CastEvent::CastPanicked(e) => {
            run.stage = CastStage::Done;
            let m = "cast task panicked: ".to_owned().concat(e.as_str());
            let mut progress_list: Vec<CastProgress> = Vec::new();
            progress_list.push(progress("error", m.clone()));
            CastStep {
                progress: progress_list,
                next: CastNext::Finish(Err(CastFailure::Internal(m))),
            }
        },
    }
}

} // verus!
