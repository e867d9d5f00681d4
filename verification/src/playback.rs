//! Playback state: the current song, if any, and the domain messages that
//! drive it.
//!
//! A `SongAnnounced` update replaces the current song wholesale; a stop
//! clears it. Enrichment updates (cover, accent color) carry the identifier
//! of the track they were produced for and are applied only while that same
//! track is still current, so a slow fetch can neither resurrect a stopped
//! song nor repaint a newer one.

use vstd::prelude::*;

use crate::color::Rgb;

verus! {

/// The song currently playing, as the display shows it. A song is created
/// from a track-changed announcement with no cover and no accent color;
/// both arrive later, if at all, through enrichment messages.
pub struct Song {
    pub paused: bool,
    pub name: String,
    pub artist: String,
    pub length: u32,
    pub at: u32,
    pub cover: Option<String>,
    pub cover_url: String,
    pub color: Option<Rgb>,
    pub track_id: String,
}

/// A domain message for the playback state.
pub enum MusicMessage {
    /// A new track was announced: replace the current song.
    UpdateSong(Song),
    /// Playback stopped: clear the current song.
    RemoveSong,
    /// The cover image for the given track is cached at `path`.
    UpdateCover { track_id: String, path: String },
    /// The accent color for the given track was resolved.
    UpdateColor { track_id: String, color: Rgb },
}

/// The track identifier an enrichment message was produced for; nothing for
/// the translator's own messages.
pub open spec fn enrichment_tag(message: MusicMessage) -> Option<Seq<char>> {
    match message {
        MusicMessage::UpdateCover { track_id, path } => Some(track_id@),
        MusicMessage::UpdateColor { track_id, color } => Some(track_id@),
        _ => None,
    }
}

/// The playback state a message leads to: a new song on an announcement,
/// none after a stop, and an enrichment update applied only when the song it
/// was produced for is still the current one.
pub open spec fn spec_apply(song: Option<Song>, message: MusicMessage) -> Option<Song> {
    match message {
        MusicMessage::UpdateSong(s) => Some(s),
        MusicMessage::RemoveSong => None,
        MusicMessage::UpdateCover { track_id, path } => match song {
            Some(s) => if s.track_id@ == track_id@ {
                Some(Song { cover: Some(path), ..s })
            } else {
                Some(s)
            },
            None => None,
        },
        MusicMessage::UpdateColor { track_id, color } => match song {
            Some(s) => if s.track_id@ == track_id@ {
                Some(Song { color: Some(color), ..s })
            } else {
                Some(s)
            },
            None => None,
        },
    }
}

/// A stop always resets the current song to none, whatever was playing.
pub proof fn lemma_stop_clears(song: Option<Song>)
    ensures
        spec_apply(song, MusicMessage::RemoveSong) is None,
{
}

/// An enrichment message whose track is no longer current changes nothing:
/// it neither resurrects a stopped song nor touches a newer one.
pub proof fn lemma_stale_enrichment_dropped(song: Option<Song>, message: MusicMessage)
    requires
        enrichment_tag(message) is Some,
        match song {
            Some(s) => Some(s.track_id@) != enrichment_tag(message),
            None => true,
        },
    ensures
        spec_apply(song, message) == song,
{
}

/// The playback state: the owning holder of the current song.
pub struct Music {
    pub song: Option<Song>,
}

impl Music {
    /// A fresh state with nothing playing.
    pub fn new() -> (m: Self)
        ensures
            m.song is None,
    {
        Music { song: None }
    }

    /// Applies one domain message, per `spec_apply`.
    pub fn update(&mut self, message: MusicMessage)
        ensures
            final(self).song == spec_apply(old(self).song, message),
    {
        match message {
            MusicMessage::RemoveSong => {
                self.song = None;
            },
            MusicMessage::UpdateSong(song) => {
                self.song = Some(song);
            },
            MusicMessage::UpdateCover { track_id, path } => {
                if let Some(song) = &mut self.song {
                    if song.track_id == track_id {
                        song.cover = Some(path);
                    }
                }
            },
            MusicMessage::UpdateColor { track_id, color } => {
                if let Some(song) = &mut self.song {
                    if song.track_id == track_id {
                        song.color = Some(color);
                    }
                }
            },
        }
    }
}

} // verus!
