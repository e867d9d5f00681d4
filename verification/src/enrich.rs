//! Enrichment outcomes: turning a finished cover fetch or accent-color
//! lookup into the update message it warrants.
//!
//! The two fetches run independently after a track is announced; each one's
//! outcome is handed here. A failed fetch produces no message at all, the
//! display simply keeps what it has, and a successful one produces an
//! update tagged with the originating track, so the playback state can drop
//! it if that track is no longer current.

use vstd::prelude::*;

use crate::color::{accent_color, spec_accent_color};
use crate::playback::MusicMessage;

verus! {

/// The message a finished cover fetch warrants: a cover update with the
/// cached path on success, nothing on failure.
pub fn cover_resolved(track_id: String, outcome: Option<String>) -> (r: Option<MusicMessage>)
    ensures
        match outcome {
            Some(path) => r == Some(MusicMessage::UpdateCover { track_id, path }),
            None => r is None,
        },
{
    match outcome {
        Some(path) => Some(MusicMessage::UpdateCover { track_id, path }),
        None => None,
    }
}

/// The message a finished accent-color lookup warrants: a color update with
/// the unpacked, dimmed color on success, nothing on failure.
pub fn color_resolved(track_id: String, outcome: Option<i32>) -> (r: Option<MusicMessage>)
    ensures
        match outcome {
            Some(packed) => r == Some(
                MusicMessage::UpdateColor { track_id, color: spec_accent_color(packed) },
            ),
            None => r is None,
        },
{
    match outcome {
        Some(packed) => Some(MusicMessage::UpdateColor { track_id, color: accent_color(packed) }),
        None => None,
    }
}

} // verus!
