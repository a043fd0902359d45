use vstd::prelude::*;

pub mod analysis_queue;
pub mod analyzer;
pub mod audiodb;
pub mod casting;
pub mod commands;
pub mod encoding;
pub mod karaoke;
pub mod keyed;
pub mod library;
pub mod lyrics;
pub mod migrations;
pub mod peer;
pub mod pipeline;
pub mod search;
pub mod text;
pub mod video_queue;
pub mod youtube;

verus! {

/// Version stamp of the karaoke-video renderer.
pub const RENDER_VERSION: u32 = 3;

} // verus!
