//! Downloading a song's music video with yt-dlp: the format it asks for
//! and the pause that keeps downloads apart.

use vstd::prelude::*;

use crate::encoding::{decimal, to_decimal};

verus! {

/// Minimum video height accepted; anything lower has nothing to match.
pub const MIN_HEIGHT: u32 = 1080;

/// The least time between the starts of two downloads, in milliseconds.
pub const MIN_DOWNLOAD_INTERVAL_MS: u64 = 10_000;

/// How long to wait before the next download starts, given how long ago
/// the previous one started (`None` when none has).
pub fn throttle_wait_ms(since_last_start_ms: Option<u64>) -> (r: u64)
    ensures
        match since_last_start_ms {
            None => r == 0,
            Some(e) => r == (if e < MIN_DOWNLOAD_INTERVAL_MS {
                MIN_DOWNLOAD_INTERVAL_MS - e
            } else {
                0
            }),
        },
        since_last_start_ms matches Some(e) ==> e + r >= MIN_DOWNLOAD_INTERVAL_MS,
{
    match since_last_start_ms {
        None => 0,
        Some(e) => if e < MIN_DOWNLOAD_INTERVAL_MS {
            MIN_DOWNLOAD_INTERVAL_MS - e
        } else {
            0
        },
    }
}

/// The yt-dlp format selector: H.264 video of at least the minimum height
/// with the best audio, else any such video with the best audio, else the
/// best single file of that height.
pub open spec fn ytdlp_format_spec() -> Seq<char> {
    let h = decimal(MIN_HEIGHT as nat);
    "bestvideo[height>="@ + h + "][vcodec^=avc1]+bestaudio/bestvideo[height>="@ + h
        + "]+bestaudio/best[height>="@ + h + "]"@
}

/// The format selector handed to yt-dlp.
pub fn ytdlp_format() -> (r: String)
    ensures
        r@ == ytdlp_format_spec(),
{
    let h = to_decimal(MIN_HEIGHT as u64);
    "bestvideo[height>=".to_owned().concat(h.as_str()).concat(
        "][vcodec^=avc1]+bestaudio/bestvideo[height>=",
    ).concat(h.as_str()).concat("]+bestaudio/best[height>=").concat(h.as_str()).concat("]")
}

} // verus!
