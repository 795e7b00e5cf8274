//! Display metadata of audio files (artist, title, album, cover art,
//! duration), read from their tags, and a track record whose identity is
//! its location.
pub mod record;
pub mod song;
pub mod tags;
