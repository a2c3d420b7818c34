//! Records of the persistent store and the service configuration.
use crate::resolver::TrackKey;
use vstd::prelude::*;

verus! {

/// Where the service listens and which database it uses.
pub struct Config {
    pub host: String,
    pub port: i64,
    pub database_url: String,
    pub secret_key: String,
}

/// A stored resolution: a song's title and artist and its video id.
pub struct Songs {
    pub title: String,
    pub artist: String,
    pub youtube_id: String,
}

impl Songs {
    /// The record that stores `youtube_id` for the song keyed by `key`.
    pub fn new(key: TrackKey, youtube_id: String) -> (r: Self)
        ensures
            r.title == key.title,
            r.artist == key.artist,
            r.youtube_id == youtube_id,
    {
        Songs { title: key.title, artist: key.artist, youtube_id }
    }
}

} // verus!
