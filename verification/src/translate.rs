//! Session event translation: turning one native player event into domain
//! messages.
//!
//! A track-changed event becomes exactly one announcement message carrying a
//! fresh song, with no cover and no accent color yet, together with a
//! request to enrich that song; the enrichment messages themselves can only
//! be formed later, from that request and a finished fetch, so they always
//! follow the announcement they belong to. A stopped event becomes the stop
//! message, and every other native event is ignored.

use vstd::prelude::*;

use crate::playback::{MusicMessage, Song};
use vstd::string::StringExecFns;

verus! {

/// The per-kind metadata of a native audio item, reduced to what artist
/// extraction needs.
pub enum UniqueFields {
    /// A podcast episode: displayed under its show's name.
    Episode { show_name: String },
    /// A locally sourced item: displayed under its artist field when it has
    /// one.
    Local { artists: Option<String> },
    /// A standard track: displayed under all its artists, joined.
    Track { artists: Vec<String> },
}

/// A native track's metadata, as the announcement uses it.
pub struct AudioItem {
    /// The track's resolvable identifier.
    pub track_id: String,
    pub name: String,
    pub duration_ms: u32,
    /// Cover image URLs; the first entry is the one fetched.
    pub covers: Vec<String>,
    pub unique_fields: UniqueFields,
}

/// A native player event, as far as the translator distinguishes them.
pub enum PlayerEvent {
    TrackChanged { audio_item: AudioItem },
    Stopped,
    /// Any other native event kind: ignored.
    Other,
}

/// What a just-announced track still needs fetched: its cover image and its
/// accent color, both tagged with the originating track.
pub struct EnrichRequest {
    pub track_id: String,
    pub cover_url: String,
}

/// The artist names joined with a comma and a space.
pub open spec fn spec_joined(parts: Seq<Seq<char>>) -> Seq<char>
    decreases parts.len(),
{
    if parts.len() == 0 {
        Seq::empty()
    } else if parts.len() == 1 {
        parts[0]
    } else {
        spec_joined(parts.drop_last()) + ", "@ + parts.last()
    }
}

/// The artist line a display shows for an item: the show name for an
/// episode, a local item's artist field (or "local" without one), and all of
/// a track's artists joined with ", ".
pub open spec fn spec_artist(unique_fields: UniqueFields) -> Seq<char> {
    match unique_fields {
        UniqueFields::Episode { show_name } => show_name@,
        UniqueFields::Local { artists } => match artists {
            Some(a) => a@,
            None => "local"@,
        },
        UniqueFields::Track { artists } => spec_joined(artists.deep_view()),
    }
}

fn join_artists(names: &Vec<String>) -> (r: String)
    ensures
        r@ == spec_joined(names.deep_view()),
{
    let ghost parts = names.deep_view();
    let mut r = String::new();
    let mut i: usize = 0;
    while i < names.len()
        invariant
            i <= names.len(),
            parts == names.deep_view(),
            r@ == spec_joined(parts.take(i as int)),
        decreases names.len() - i,
    {
        if i > 0 {
            r.append(", ");
        }
        r.append(names[i].as_str());
        proof {
            let upto = parts.take(i + 1 as int);
            assert(upto.drop_last() =~= parts.take(i as int));
            assert(r@ =~= spec_joined(upto));
        }
        i = i + 1;
    }
    proof {
        assert(parts.take(names@.len() as int) =~= parts);
    }
    r
}

/// Extracts the artist line of an item, per `spec_artist`.
pub fn extract_artist(unique_fields: UniqueFields) -> (r: String)
    ensures
        r@ == spec_artist(unique_fields),
{
    match unique_fields {
        UniqueFields::Episode { show_name } => show_name,
        UniqueFields::Local { artists } => match artists {
            Some(a) => a,
            None => "local".to_owned(),
        },
        UniqueFields::Track { artists } => join_artists(&artists),
    }
}

/// The song a track announcement carries: the item's fields, position zero,
/// not paused, and, always, no cover and no accent color yet.
pub open spec fn song_announced_for(song: Song, item: AudioItem) -> bool {
    &&& song.paused == false
    &&& song.name == item.name
    &&& song.artist@ == spec_artist(item.unique_fields)
    &&& song.length == item.duration_ms
    &&& song.at == 0
    &&& song.cover is None
    &&& song.cover_url@ == item.covers.deep_view()[0]
    &&& song.color is None
    &&& song.track_id@ == item.track_id@
}

/// Builds the song a track announcement carries.
pub fn announce(audio_item: AudioItem) -> (song: Song)
    requires
        audio_item.covers@.len() > 0,
    ensures
        song_announced_for(song, audio_item),
{
    let cover_url = audio_item.covers[0].clone();
    let track_id = audio_item.track_id.clone();
    let artist = extract_artist(audio_item.unique_fields);
    Song {
        paused: false,
        name: audio_item.name,
        artist,
        length: audio_item.duration_ms,
        at: 0,
        cover: None,
        cover_url,
        color: None,
        track_id,
    }
}

/// Translates one native event: a track change becomes the announcement of a
/// fresh song plus an enrichment request for it, a stop becomes the stop
/// message, and anything else produces nothing.
pub fn translate(event: PlayerEvent) -> (r: (Option<MusicMessage>, Option<EnrichRequest>))
    requires
        event matches PlayerEvent::TrackChanged { audio_item } ==> audio_item.covers@.len() > 0,
    ensures
        match event {
            PlayerEvent::TrackChanged { audio_item } => {
                &&& r.0 matches Some(MusicMessage::UpdateSong(song)) && song_announced_for(
                    song,
                    audio_item,
                )
                &&& r.1 matches Some(req) && req.track_id@ == audio_item.track_id@
                    && req.cover_url@ == audio_item.covers.deep_view()[0]
            },
            PlayerEvent::Stopped => r.0 == Some(MusicMessage::RemoveSong) && r.1 is None,
            PlayerEvent::Other => r.0 is None && r.1 is None,
        },
{
    match event {
        PlayerEvent::TrackChanged { audio_item } => {
            let track_id = audio_item.track_id.clone();
            let cover_url = audio_item.covers[0].clone();
            let song = announce(audio_item);
            (
                Some(MusicMessage::UpdateSong(song)),
                Some(EnrichRequest { track_id, cover_url }),
            )
        },
        PlayerEvent::Stopped => (Some(MusicMessage::RemoveSong), None),
        PlayerEvent::Other => (None, None),
    }
}

} // verus!
