//! TheAudioDB lookup of a song's official YouTube music video: which songs
//! can be looked up, the search URL, and which track of the answer holds
//! the video.

use vstd::prelude::*;
use vstd::utf8::encode_utf8;

use crate::encoding::{percent_encode, url_encode};
use crate::text::{str_equals, trim, trimmed};

verus! {

/// TheAudioDB's documented shared key for the free v1 API.
pub const AUDIODB_API_KEY: &'static str = "123";

/// A music video TheAudioDB has on file for a song.
pub struct MusicVideoResult {
    pub youtube_url: String,
    pub track_name: String,
    pub artist_name: String,
}

/// One track of a TheAudioDB search answer.
pub struct AudioDbTrack {
    pub str_track: String,
    pub str_artist: String,
    /// `None` when TheAudioDB has the track but no video on file.
    pub str_music_vid: Option<String>,
}

/// A song can be looked up when it has a title and a known artist.
pub open spec fn searchable(title: Seq<char>, artist: Seq<char>) -> bool {
    title.len() > 0 && artist.len() > 0 && artist != "Unknown Artist"@
}

/// The search URL for a song: artist and title percent-encoded.
pub open spec fn search_url(title: Seq<char>, artist: Seq<char>) -> Seq<char> {
    "https://www.theaudiodb.com/api/v1/json/123/searchtrack.php?s="@ + percent_encode(
        encode_utf8(artist),
    ) + "&t="@ + percent_encode(encode_utf8(title))
}

/// The TheAudioDB search URL for a song, or `None` when the song can't be
/// looked up (no title, no artist, or the placeholder artist).
pub fn music_video_search_url(title: &str, artist: &str) -> (r: Option<String>)
    ensures
        searchable(title@, artist@) ==> (r matches Some(u) && u@ == search_url(title@, artist@)),
        !searchable(title@, artist@) ==> r is None,
{
    proof {
        reveal_strlit("123");
    }
    if title.is_empty() || artist.is_empty() || str_equals(artist, "Unknown Artist") {
        return None;
    }
    let url = "https://www.theaudiodb.com/api/v1/json/".to_owned().concat(AUDIODB_API_KEY).concat(
        "/searchtrack.php?s=",
    ).concat(url_encode(artist).as_str()).concat("&t=").concat(url_encode(title).as_str());
    proof {
        reveal_strlit("https://www.theaudiodb.com/api/v1/json/");
        reveal_strlit("/searchtrack.php?s=");
        reveal_strlit("https://www.theaudiodb.com/api/v1/json/123/searchtrack.php?s=");
        assert("https://www.theaudiodb.com/api/v1/json/"@ + "123"@ + "/searchtrack.php?s="@
            =~= "https://www.theaudiodb.com/api/v1/json/123/searchtrack.php?s="@);
    }
    Some(url)
}

/// What to look up for the song of a hash: nothing when the song isn't in
/// the library or can't be looked up, else its search URL.
pub fn find_music_video_for_hash(song: Option<(String, String)>) -> (r: Option<String>)
    ensures
        match song {
            None => r is None,
            Some((title, artist)) => if searchable(title@, artist@) {
                r matches Some(u) && u@ == search_url(title@, artist@)
            } else {
                r is None
            },
        },
{
    match song {
        None => None,
        Some((title, artist)) => music_video_search_url(title.as_str(), artist.as_str()),
    }
}

/// The first track carrying a non-blank video URL: `(url, track, artist)`.
pub open spec fn first_video(tracks: Seq<AudioDbTrack>) -> Option<(Seq<char>, Seq<char>, Seq<char>)>
    decreases tracks.len(),
{
    if tracks.len() == 0 {
        None
    } else {
        match tracks[0].str_music_vid {
            Some(v) if trim(v@).len() > 0 => Some((v@, tracks[0].str_track@, tracks[0].str_artist@)),
            _ => first_video(tracks.drop_first()),
        }
    }
}

/// The music video of a search answer: the first track with a non-blank
/// video URL; `None` covers "no track" and "no video".
pub fn pick_music_video(tracks: &Vec<AudioDbTrack>) -> (r: Option<MusicVideoResult>)
    ensures
        match first_video(tracks@) {
            None => r is None,
            Some((u, t, a)) => r matches Some(m) && m.youtube_url@ == u && m.track_name@ == t
                && m.artist_name@ == a,
        },
{
    let mut i: usize = 0;
    assert(tracks@.subrange(0, tracks@.len() as int) =~= tracks@);
    while i < tracks.len()
        invariant
            i <= tracks@.len(),
            first_video(tracks@) == first_video(tracks@.subrange(i as int, tracks@.len() as int)),
        decreases tracks@.len() - i,
    {
        let ghost rest = tracks@.subrange(i as int, tracks@.len() as int);
        assert(rest.drop_first() =~= tracks@.subrange(i + 1, tracks@.len() as int));
        assert(rest[0] == tracks@[i as int]);
        let t = &tracks[i];
        match &t.str_music_vid {
            Some(v) => {
                if !trimmed(v.as_str()).as_str().is_empty() {
                    return Some(
                        MusicVideoResult {
                            youtube_url: v.clone(),
                            track_name: t.str_track.clone(),
                            artist_name: t.str_artist.clone(),
                        },
                    );
                }
            },
            None => {},
        }
        i = i + 1;
    }
    None
}

} // verus!
