//! Playback-session bridge for a small clock / now-playing display.
//!
//! The crate holds the verified core of the display: the content-addressed
//! download cache keying, the translation of native player events into domain
//! messages, the enrichment of an announced song with a cover image and an
//! accent color, the playback state that those messages drive, and the small
//! pieces of clock arithmetic the clock face needs. Network, disk and UI work
//! stays outside; callers hand the results of that work to the functions here.

pub mod cache;
pub mod clock;
pub mod color;
pub mod enrich;
pub mod playback;
pub mod session;
pub mod settings;
pub mod translate;

pub use cache::encode;
pub use cache::ContentCache;
pub use clock::calculate_delta;
pub use clock::ClockTime;
pub use clock::UnderlineMessage;
pub use color::decode_color;
pub use color::Rgb;
pub use enrich::color_resolved;
pub use enrich::cover_resolved;
pub use playback::Music;
pub use playback::MusicMessage;
pub use playback::Song;
pub use session::LoopAction;
pub use session::LoopEvent;
pub use session::LoopState;
pub use settings::ClockSettings;
pub use settings::ThemeSettings;
pub use settings::WifiSettings;
pub use translate::AudioItem;
pub use translate::EnrichRequest;
pub use translate::PlayerEvent;
pub use translate::UniqueFields;
